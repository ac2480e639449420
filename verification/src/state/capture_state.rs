//! What is to be captured.

use vstd::prelude::*;
use crate::capture::CaptureArea;

verus! {

/// The capture choice as a mathematical value.
pub struct CaptureStateView {
    pub capture_area: Option<CaptureArea>,
    pub fullscreen: bool,
}

pub struct CaptureState {
    capture_area: Option<CaptureArea>,
    is_fullscreen: bool,
}

impl View for CaptureState {
    type V = CaptureStateView;

    closed spec fn view(&self) -> CaptureStateView {
        CaptureStateView { capture_area: self.capture_area, fullscreen: self.is_fullscreen }
    }
}

/// Whether a choice of area means the whole of a display of the given
/// size: no area does, and so does the area that covers the display.
pub open spec fn means_fullscreen(area: Option<CaptureArea>, display_width: int, display_height: int) -> bool {
    match area {
        Some(a) => a.covers(display_width, display_height),
        None => true,
    }
}

impl CaptureState {
    /// The whole screen, with an empty area to select into.
    pub fn new() -> (state: CaptureState)
        ensures
            state@ == (CaptureStateView {
                capture_area: Some(CaptureArea { x: 0, y: 0, width: 0, height: 0 }),
                fullscreen: true,
            }),
    {
        CaptureState { capture_area: Some(CaptureArea::default()), is_fullscreen: true }
    }

    pub fn get_capture_area(&self) -> (area: Option<&CaptureArea>)
        ensures
            area == match self@.capture_area {
                Some(a) => Some(&a),
                None => None,
            },
    {
        self.capture_area.as_ref()
    }

    /// The area, to change it in place.
    pub fn get_capture_area_mut(&mut self) -> (area: Option<&mut CaptureArea>)
        ensures
            match old(self)@.capture_area {
                None => area is None && final(self)@ == old(self)@,
                Some(a) => area is Some && *area.unwrap() == a && final(self)@ == (CaptureStateView {
                    capture_area: Some(*final(area.unwrap())),
                    ..old(self)@
                }),
            },
    {
        self.capture_area.as_mut()
    }

    /// Sets the area and whether that is the whole of a display of the
    /// given size.
    pub fn set_capture_area(&mut self, area: Option<CaptureArea>, display_width: usize, display_height: usize)
        ensures
            final(self)@ == (CaptureStateView {
                capture_area: area,
                fullscreen: means_fullscreen(area, display_width as int, display_height as int),
            }),
    {
        match &area {
            Some(a) => {
                self.is_fullscreen = a.x == 0 && a.y == 0 && a.width == display_width && a.height
                    == display_height;
            },
            None => {
                self.is_fullscreen = true;
            },
        }
        self.capture_area = area;
    }

    /// Sets anew whether the area is the whole of a display of the given
    /// size.
    pub fn refresh_fullscreen(&mut self, display_width: usize, display_height: usize)
        ensures
            final(self)@ == (CaptureStateView {
                fullscreen: means_fullscreen(old(self)@.capture_area, display_width as int, display_height as int),
                ..old(self)@
            }),
    {
        let fullscreen = match &self.capture_area {
            Some(a) => a.x == 0 && a.y == 0 && a.width == display_width && a.height == display_height,
            None => true,
        };
        self.is_fullscreen = fullscreen;
    }

    pub fn is_fullscreen(&self) -> (b: bool)
        ensures
            b == self@.fullscreen,
    {
        self.is_fullscreen
    }

    pub fn set_fullscreen(&mut self, value: bool)
        ensures
            final(self)@ == (CaptureStateView { fullscreen: value, ..old(self)@ }),
    {
        self.is_fullscreen = value;
    }
}

} // verus!
