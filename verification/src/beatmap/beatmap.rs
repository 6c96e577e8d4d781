//! The header of a beatmap.

use vstd::prelude::*;

verus! {

/// What a beatmap says about itself.
#[derive(Debug, Clone)]
pub struct Beatmap {
    pub artist: String,
    pub title: String,
    pub creator: String,
    /// The audio file, as a path relative to the beatmap.
    pub audio: String,
}

impl Default for Beatmap {
    fn default() -> (beatmap: Beatmap)
        ensures
            beatmap.artist@.len() == 0,
            beatmap.title@.len() == 0,
            beatmap.creator@.len() == 0,
            beatmap.audio@.len() == 0,
    {
        Beatmap {
            artist: String::new(),
            title: String::new(),
            creator: String::new(),
            audio: String::new(),
        }
    }
}

} // verus!
