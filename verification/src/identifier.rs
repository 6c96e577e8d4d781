//! The screens of the editor.

use crate::screen::Identifier as ScreenIdentifier;
use vstd::prelude::*;

verus! {

/// Names a screen.
#[derive(Debug, Clone, Copy, PartialEq, Eq, Structural, Hash)]
pub enum Identifier {
    Unset,
    Editor,
}

impl Default for Identifier {
    fn default() -> (identifier: Identifier)
        ensures
            identifier == Identifier::Unset,
    {
        Identifier::Unset
    }
}

impl ScreenIdentifier for Identifier {
    open spec fn label_text(&self) -> Seq<char> {
        match self {
            Identifier::Unset => ""@,
            Identifier::Editor => "Editor"@,
        }
    }

    fn label(&self) -> (label: &'static str) {
        match self {
            Identifier::Unset => "",
            Identifier::Editor => "Editor",
        }
    }
}

} // verus!
