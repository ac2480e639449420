//! Which panels and dialogs are open.

use vstd::prelude::*;

verus! {

/// The panels as a mathematical value.
pub struct UIStateView {
    pub selecting_area: bool,
    pub show_confirmation_dialog: bool,
    pub show_monitor_selection: bool,
    pub show_shortcuts_menu: bool,
    pub show_caster_preview_window: bool,
}

pub struct UIState {
    selecting_area: bool,
    show_confirmation_dialog: bool,
    show_monitor_selection: bool,
    show_shortcuts_menu: bool,
    show_caster_preview_window: bool,
}

impl View for UIState {
    type V = UIStateView;

    closed spec fn view(&self) -> UIStateView {
        UIStateView {
            selecting_area: self.selecting_area,
            show_confirmation_dialog: self.show_confirmation_dialog,
            show_monitor_selection: self.show_monitor_selection,
            show_shortcuts_menu: self.show_shortcuts_menu,
            show_caster_preview_window: self.show_caster_preview_window,
        }
    }
}

impl UIState {
    /// Everything is closed.
    pub fn new() -> (state: UIState)
        ensures
            state@ == (UIStateView {
                selecting_area: false,
                show_confirmation_dialog: false,
                show_monitor_selection: false,
                show_shortcuts_menu: false,
                show_caster_preview_window: false,
            }),
    {
        UIState {
            selecting_area: false,
            show_confirmation_dialog: false,
            show_monitor_selection: false,
            show_shortcuts_menu: false,
            show_caster_preview_window: false,
        }
    }

    pub fn is_selecting_area(&self) -> (b: bool)
        ensures
            b == self@.selecting_area,
    {
        self.selecting_area
    }

    pub fn set_selecting_area(&mut self, value: bool)
        ensures
            final(self)@ == (UIStateView { selecting_area: value, ..old(self)@ }),
    {
        self.selecting_area = value;
    }

    pub fn show_confirmation_dialog(&self) -> (b: bool)
        ensures
            b == self@.show_confirmation_dialog,
    {
        self.show_confirmation_dialog
    }

    pub fn set_show_confirmation_dialog(&mut self, value: bool)
        ensures
            final(self)@ == (UIStateView { show_confirmation_dialog: value, ..old(self)@ }),
    {
        self.show_confirmation_dialog = value;
    }

    pub fn is_showing_monitor_selection(&self) -> (b: bool)
        ensures
            b == self@.show_monitor_selection,
    {
        self.show_monitor_selection
    }

    pub fn set_showing_monitor_selection(&mut self, value: bool)
        ensures
            final(self)@ == (UIStateView { show_monitor_selection: value, ..old(self)@ }),
    {
        self.show_monitor_selection = value;
    }

    pub fn is_showing_shortcuts_menu(&self) -> (b: bool)
        ensures
            b == self@.show_shortcuts_menu,
    {
        self.show_shortcuts_menu
    }

    pub fn set_showing_shortcuts_menu(&mut self, value: bool)
        ensures
            final(self)@ == (UIStateView { show_shortcuts_menu: value, ..old(self)@ }),
    {
        self.show_shortcuts_menu = value;
    }

    pub fn is_showing_caster_preview_window(&self) -> (b: bool)
        ensures
            b == self@.show_caster_preview_window,
    {
        self.show_caster_preview_window
    }

    pub fn set_showing_caster_preview_window(&mut self, value: bool)
        ensures
            final(self)@ == (UIStateView { show_caster_preview_window: value, ..old(self)@ }),
    {
        self.show_caster_preview_window = value;
    }
}

} // verus!
