//! The timeline: the play button, the time display and the time slider.

use crate::view::window::Window;
use vstd::prelude::*;

verus! {

/// The timeline window. While the slider is dragged it remembers whether
/// playback was paused when the drag began.
#[derive(Debug, Clone, Copy, PartialEq, Eq, Structural)]
pub struct TimelineWindow {
    visible: bool,
    was_playing: bool,
}

impl TimelineWindow {
    /// The paused flag that was noted when the last drag began.
    pub closed spec fn noted(&self) -> bool {
        self.was_playing
    }

    /// The timeline window, shown.
    pub fn new() -> (window: Self)
        ensures
            window.visible(),
            !window.noted(),
    {
        TimelineWindow { visible: true, was_playing: false }
    }

    /// Splits a time in milliseconds into the minutes, seconds and
    /// milliseconds that the display shows.
    pub fn clock_face(time: u32) -> (face: (u32, u32, u32))
        ensures
            face.0 == time / 60000,
            face.1 == (time / 1000) % 60,
            face.2 == time % 1000,
            face.0 * 60000 + face.1 * 1000 + face.2 == time,
    {
        (time / (60 * 1000), time / 1000 % 60, time % 1000)
    }

    /// Notes the paused flag as a drag of the slider begins.
    pub fn drag_started(&mut self, paused: bool)
        ensures
            final(self).noted() == paused,
            final(self).visible() == old(self).visible(),
    {
        self.was_playing = paused;
    }

    /// The paused flag to set as a drag of the slider ends: the one that was
    /// noted when it began, if a project is open, and none otherwise.
    pub fn drag_released(&self, project_open: bool) -> (paused: Option<bool>)
        ensures
            paused == if project_open {
                Some(self.noted())
            } else {
                None
            },
    {
        if project_open {
            Some(self.was_playing)
        } else {
            None
        }
    }
}

impl Window for TimelineWindow {
    closed spec fn visible(&self) -> bool {
        self.visible
    }

    open spec fn title_text() -> Seq<char> {
        "Timeline"@
    }

    fn title() -> (title: &'static str) {
        "Timeline"
    }

    fn set_visible(&mut self, value: bool) {
        self.visible = value;
    }

    fn get_visible(&self) -> (visible: bool) {
        self.visible
    }
}

} // verus!
