//! What the application asks of the names of its screens.

use vstd::prelude::*;

verus! {

/// A name of a screen: a small value that can be shown to the user.
pub trait Identifier: Copy {
    /// The text that names the screen.
    spec fn label_text(&self) -> Seq<char>;

    /// The text that names the screen.
    fn label(&self) -> (label: &'static str)
        ensures
            label@ == self.label_text(),
    ;
}

} // verus!
