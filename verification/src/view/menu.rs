//! The menu bar.

use vstd::prelude::*;

verus! {

/// The menu bar, which keeps no state of its own.
#[derive(Debug, Clone, Copy, PartialEq, Eq, Structural)]
pub struct MenuView {}

impl MenuView {
    pub fn new() -> (view: Self)
        ensures
            view == (MenuView {  }),
    {
        MenuView {  }
    }
}

} // verus!
