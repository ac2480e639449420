//! What the application is doing at the moment.

use vstd::prelude::*;

verus! {

/// The flags as a mathematical value.
pub struct AppFlagsView {
    pub annotation_tools_active: bool,
    pub recording: bool,
    pub broadcasting: bool,
    pub receiving: bool,
    pub screen_locked: bool,
}

pub struct AppFlags {
    is_annotation_tools_active: bool,
    is_recording: bool,
    is_broadcasting: bool,
    is_receiving: bool,
    is_screen_locked: bool,
}

impl View for AppFlags {
    type V = AppFlagsView;

    closed spec fn view(&self) -> AppFlagsView {
        AppFlagsView {
            annotation_tools_active: self.is_annotation_tools_active,
            recording: self.is_recording,
            broadcasting: self.is_broadcasting,
            receiving: self.is_receiving,
            screen_locked: self.is_screen_locked,
        }
    }
}

impl AppFlags {
    /// Nothing is going on.
    pub fn new() -> (flags: AppFlags)
        ensures
            flags@ == (AppFlagsView {
                annotation_tools_active: false,
                recording: false,
                broadcasting: false,
                receiving: false,
                screen_locked: false,
            }),
    {
        AppFlags {
            is_annotation_tools_active: false,
            is_recording: false,
            is_broadcasting: false,
            is_receiving: false,
            is_screen_locked: false,
        }
    }

    pub fn is_screen_locked(&self) -> (b: bool)
        ensures
            b == self@.screen_locked,
    {
        self.is_screen_locked
    }

    pub fn set_screen_locked(&mut self, value: bool)
        ensures
            final(self)@ == (AppFlagsView { screen_locked: value, ..old(self)@ }),
    {
        self.is_screen_locked = value;
    }

    pub fn is_receiving(&self) -> (b: bool)
        ensures
            b == self@.receiving,
    {
        self.is_receiving
    }

    pub fn set_receiving(&mut self, value: bool)
        ensures
            final(self)@ == (AppFlagsView { receiving: value, ..old(self)@ }),
    {
        self.is_receiving = value;
    }

    pub fn is_recording(&self) -> (b: bool)
        ensures
            b == self@.recording,
    {
        self.is_recording
    }

    pub fn set_recording(&mut self, value: bool)
        ensures
            final(self)@ == (AppFlagsView { recording: value, ..old(self)@ }),
    {
        self.is_recording = value;
    }

    pub fn is_broadcasting(&self) -> (b: bool)
        ensures
            b == self@.broadcasting,
    {
        self.is_broadcasting
    }

    pub fn set_broadcasting(&mut self, value: bool)
        ensures
            final(self)@ == (AppFlagsView { broadcasting: value, ..old(self)@ }),
    {
        self.is_broadcasting = value;
    }

    pub fn is_annotation_tools_active(&self) -> (b: bool)
        ensures
            b == self@.annotation_tools_active,
    {
        self.is_annotation_tools_active
    }

    pub fn set_annotation_tools_active(&mut self, value: bool)
        ensures
            final(self)@ == (AppFlagsView { annotation_tools_active: value, ..old(self)@ }),
    {
        self.is_annotation_tools_active = value;
    }
}

} // verus!
