//! Reading beatmaps from text.

pub mod osu_taiko;
pub mod text;

use crate::beatmap::beatmap::Beatmap;
use crate::beatmap::parser::osu_taiko::circles;
use crate::beatmap::parser::osu_taiko::read;
use crate::beatmap::parser::osu_taiko::ParseError;
use crate::beatmap::parser::osu_taiko::TaikoCircle;
use vstd::prelude::*;

verus! {

/// Reads a beatmap in the one format that is understood, the taiko flavour
/// of the osu! beatmap format.
pub fn parse(data: &str) -> (parsed: Result<(Beatmap, Vec<TaikoCircle>), ParseError>)
    ensures
        match parsed {
            Ok((beatmap, objects)) => {
                &&& read(data@).is_some()
                &&& beatmap.title@ == read(data@).unwrap().title
                &&& beatmap.artist@ == read(data@).unwrap().artist
                &&& beatmap.audio@ == read(data@).unwrap().audio
                &&& beatmap.creator@ == Seq::<char>::empty()
                &&& circles(objects@) == read(data@).unwrap().objects
            },
            Err(_) => read(data@).is_none(),
        },
{
    osu_taiko::parse(data)
}

} // verus!
