//! The window in which key bindings are changed.

use crate::identifier::Identifier;
use crate::view::window::Window;
use vstd::prelude::*;

verus! {

/// The bindings window. While a binding is being changed it remembers which
/// one: the screen it belongs to and the key combination it is bound to, the
/// latter by its code.
#[derive(Debug, Clone, Copy)]
pub struct BindingsWindow {
    visible: bool,
    editing: Option<(Identifier, u64)>,
}

impl BindingsWindow {
    /// The binding that is being changed, if any.
    pub closed spec fn editing(&self) -> Option<(Identifier, u64)> {
        self.editing
    }

    /// The bindings window, hidden, with no binding being changed.
    pub fn new() -> (window: Self)
        ensures
            !window.visible(),
            window.editing().is_none(),
    {
        BindingsWindow { visible: false, editing: None }
    }

    /// Starts changing the binding of `combination` on `screen`.
    pub fn edit(&mut self, screen: Identifier, combination: u64)
        ensures
            final(self).editing() == Some((screen, combination)),
            final(self).visible() == old(self).visible(),
    {
        self.editing = Some((screen, combination));
    }

    /// The binding that is being changed, if any.
    pub fn get_editing(&self) -> (editing: Option<(Identifier, u64)>)
        ensures
            editing == self.editing(),
    {
        self.editing
    }
}

impl Window for BindingsWindow {
    closed spec fn visible(&self) -> bool {
        self.visible
    }

    open spec fn title_text() -> Seq<char> {
        "Bindings"@
    }

    fn title() -> (title: &'static str) {
        "Bindings"
    }

    fn set_visible(&mut self, value: bool) {
        self.visible = value;
    }

    fn get_visible(&self) -> (visible: bool) {
        self.visible
    }
}

} // verus!
