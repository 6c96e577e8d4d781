//! The window that greets the user.

use crate::view::window::Window;
use vstd::prelude::*;

verus! {

/// The startup window.
#[derive(Debug, Clone, Copy, PartialEq, Eq, Structural)]
pub struct StartupWindow {
    visible: bool,
}

impl StartupWindow {
    /// The startup window, shown.
    pub fn new() -> (window: Self)
        ensures
            window.visible(),
    {
        StartupWindow { visible: true }
    }
}

impl Window for StartupWindow {
    closed spec fn visible(&self) -> bool {
        self.visible
    }

    open spec fn title_text() -> Seq<char> {
        "Startup"@
    }

    fn title() -> (title: &'static str) {
        "Startup"
    }

    fn set_visible(&mut self, value: bool) {
        self.visible = value;
    }

    fn get_visible(&self) -> (visible: bool) {
        self.visible
    }
}

} // verus!
