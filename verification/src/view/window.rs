//! The windows of the editor.

pub mod bindings;
pub mod startup;
pub mod timeline;

use vstd::prelude::*;

verus! {

/// A window that can be shown and hidden.
pub trait Window {
    /// Whether the window is shown.
    spec fn visible(&self) -> bool;

    /// The text of the window's title.
    spec fn title_text() -> Seq<char>;

    fn title() -> (title: &'static str)
        ensures
            title@ == Self::title_text(),
    ;

    fn set_visible(&mut self, value: bool)
        ensures
            final(self).visible() == value,
    ;

    fn get_visible(&self) -> (visible: bool)
        ensures
            visible == self.visible(),
    ;
}

/// Settles whether `window` stays shown after a frame: it does if it was
/// shown and the user did not close it, `still_open` telling the latter.
pub fn settle_visibility<W: Window>(window: &mut W, still_open: bool)
    ensures
        final(window).visible() == (old(window).visible() && still_open),
{
    let shown = window.get_visible() && still_open;
    window.set_visible(shown);
}

} // verus!
