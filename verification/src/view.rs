//! The state behind the views of the editor.

pub mod input;
pub mod menu;
pub mod window;
