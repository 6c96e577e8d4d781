//! The core of a rhythm game editor: a realtime audio playback engine, a
//! clock that follows it, the beatmap format, the list of projects and the
//! state behind the views.

pub mod audio;
pub mod beatmap;
pub mod clock;
pub mod identifier;
pub mod project;
pub mod screen;
pub mod view;
