//! What the user has chosen.

use vstd::prelude::*;

verus! {

/// The colours of the interface.
#[derive(Clone, Copy, Debug, PartialEq, Eq)]
pub enum Theme {
    Light,
    Dark,
}

pub struct UserSettings {
    theme: Theme,
}

impl UserSettings {
    pub closed spec fn theme(&self) -> Theme {
        self.theme
    }

    /// The dark theme.
    pub fn new() -> (settings: UserSettings)
        ensures
            settings.theme() == Theme::Dark,
    {
        UserSettings { theme: Theme::Dark }
    }

    pub fn get_theme(&self) -> (theme: &Theme)
        ensures
            *theme == self.theme(),
    {
        &self.theme
    }

    pub fn set_theme(&mut self, new_theme: Theme)
        ensures
            final(self).theme() == new_theme,
    {
        self.theme = new_theme;
    }
}

} // verus!
