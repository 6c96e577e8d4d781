//! The taiko flavour of the osu! beatmap format.
//!
//! A beatmap is read line by line. Up to the line that opens the hit
//! objects, a line of the form `key: value` may set an entry of the header.
//! From there on, every line with at least five comma-separated fields is a
//! circle: the third field is its time in milliseconds, the fifth its hit
//! sound.

use crate::beatmap::beatmap::Beatmap;
use crate::beatmap::component::adapter::taiko::bit;
use crate::beatmap::component::adapter::taiko::bit_of;
use crate::beatmap::component::adapter::taiko::with_bit;
use crate::beatmap::component::adapter::taiko::with_bit_of;
use crate::beatmap::component::time::TimeComponent;
use crate::beatmap::component::variant::VariantComponent;
use crate::beatmap::component::HitObject;
use crate::beatmap::parser::text::chars_of;
use crate::beatmap::parser::text::field;
use crate::beatmap::parser::text::find;
use crate::beatmap::parser::text::find_char;
use crate::beatmap::parser::text::has_prefix;
use crate::beatmap::parser::text::nth_field;
use crate::beatmap::parser::text::number;
use crate::beatmap::parser::text::parse_number;
use crate::beatmap::parser::text::range_is;
use crate::beatmap::parser::text::trim;
use crate::beatmap::parser::text::trimmed;
use crate::beatmap::Time;
use vstd::prelude::*;
use vstd::string::StrSliceExecFns;

verus! {

/// A circle of a taiko beatmap.
#[derive(Debug, Clone, Copy, PartialEq, Eq, Structural)]
pub struct TaikoCircle {
    pub time: Time,
    pub variant: u32,
}

impl TimeComponent for TaikoCircle {
    open spec fn time_ms(&self) -> u32 {
        self.time@ as u32
    }

    fn get_time(&self) -> (value: u32) {
        self.time.as_ms()
    }

    fn set_time(&mut self, value: u32) {
        self.time = Time::from_ms(value);
    }
}

impl VariantComponent for TaikoCircle {
    open spec fn variant_bits(&self) -> u32 {
        self.variant
    }

    fn get_variant(&self) -> (value: u32) {
        self.variant
    }

    fn set_variant(&mut self, value: u32) {
        self.variant = value;
    }
}

impl HitObject for TaikoCircle {
    open spec fn time_component(&self) -> Option<Time> {
        Some(self.time)
    }

    open spec fn variant_component(&self) -> Option<u32> {
        Some(self.variant)
    }

    fn time(&self) -> (time: Option<Time>) {
        Some(self.time)
    }

    fn variant(&self) -> (variant: Option<u32>) {
        Some(self.variant)
    }
}

/// Why a beatmap could not be read.
#[derive(Debug, Clone, Copy, PartialEq, Eq, Structural)]
pub enum ParseError {
    /// The time or the hit sound of a hit object is not a number.
    InvalidNumber,
}

/// The entries of the header that are read.
#[derive(Debug, Clone, Copy, PartialEq, Eq, Structural)]
pub enum HeaderKey {
    Title,
    Artist,
    AudioFilename,
}

/// What has been read of a beatmap.
pub struct MapModel {
    pub title: Seq<char>,
    pub artist: Seq<char>,
    pub audio: Seq<char>,
    /// The circles in the order they were read, each as its time in
    /// milliseconds and its variant bits.
    pub objects: Seq<(u32, u32)>,
    /// Whether the line that opens the hit objects has been read.
    pub in_objects: bool,
}

/// The variant bits of a circle with the given hit sound: a whistle or a
/// clap makes it a kat, a finish makes it big.
pub open spec fn variant_of(hit_sound: u32) -> u32 {
    with_bit_of(
        with_bit_of(0, 0, bit_of(hit_sound, 1) || bit_of(hit_sound, 3)),
        1,
        bit_of(hit_sound, 2),
    )
}

/// What the line `from..to` says in the hit objects: `None` if its time or
/// its hit sound is there and is not a number, otherwise the circle it
/// describes, if it has the fields of one.
pub open spec fn object_of(text: Seq<char>, from: int, to: int) -> Option<Option<(u32, u32)>> {
    match field(text, ',', from, to, 2) {
        None => Some(None),
        Some((time_from, time_to)) => match number(text, time_from, time_to) {
            None => None,
            Some(time) => match field(text, ',', from, to, 4) {
                None => Some(None),
                Some((sound_from, sound_to)) => match number(text, sound_from, sound_to) {
                    None => None,
                    Some(hit_sound) => Some(Some((time, variant_of(hit_sound)))),
                },
            },
        },
    }
}

/// The entry that a word names, if any.
pub open spec fn key_of(word: Seq<char>) -> Option<HeaderKey> {
    if word == "Title"@ {
        Some(HeaderKey::Title)
    } else if word == "Artist"@ {
        Some(HeaderKey::Artist)
    } else if word == "AudioFilename"@ {
        Some(HeaderKey::AudioFilename)
    } else {
        None
    }
}

/// What the line `from..to` says in the header: the entry it sets and the
/// bounds of the value. The key is what stands before the first colon and
/// the value what stands between the first and the second, both without the
/// white space around them.
pub open spec fn header_of(text: Seq<char>, from: int, to: int) -> Option<(HeaderKey, int, int)> {
    match field(text, ':', from, to, 1) {
        None => None,
        Some((value_from, value_to)) => {
            let key = trimmed(text, from, find(text, ':', from, to));
            let value = trimmed(text, value_from, value_to);
            match key_of(text.subrange(key.0, key.1)) {
                Some(entry) => Some((entry, value.0, value.1)),
                None => None,
            }
        },
    }
}

/// Whether the line `from..to` opens the hit objects.
pub open spec fn opens_objects(text: Seq<char>, from: int, to: int) -> bool {
    to - from >= "[HitObjects]"@.len() && text.subrange(from, from + "[HitObjects]"@.len())
        == "[HitObjects]"@
}

impl MapModel {
    /// Nothing read yet.
    pub open spec fn start() -> MapModel {
        MapModel {
            title: Seq::empty(),
            artist: Seq::empty(),
            audio: Seq::empty(),
            objects: Seq::empty(),
            in_objects: false,
        }
    }

    /// The state with `entry` set to `value`.
    pub open spec fn with_entry(self, entry: HeaderKey, value: Seq<char>) -> MapModel {
        match entry {
            HeaderKey::Title => MapModel { title: value, ..self },
            HeaderKey::Artist => MapModel { artist: value, ..self },
            HeaderKey::AudioFilename => MapModel { audio: value, ..self },
        }
    }

    /// The state after the line `from..to` of `text` was read, or `None` if
    /// the line cannot be read.
    pub open spec fn step(self, text: Seq<char>, from: int, to: int) -> Option<MapModel> {
        if self.in_objects {
            match object_of(text, from, to) {
                None => None,
                Some(None) => Some(self),
                Some(Some(circle)) => Some(
                    MapModel { objects: self.objects.push(circle), ..self },
                ),
            }
        } else if opens_objects(text, from, to) {
            Some(MapModel { in_objects: true, ..self })
        } else {
            match header_of(text, from, to) {
                Some((entry, value_from, value_to)) => Some(
                    self.with_entry(entry, text.subrange(value_from, value_to)),
                ),
                None => Some(self),
            }
        }
    }
}

/// Where the line that starts at `from` stops: at the next line feed, or at
/// the end of the text.
pub open spec fn line_stop(text: Seq<char>, from: int) -> int {
    find(text, '\n', from, text.len() as int)
}

/// Where the content of the line that starts at `from` ends: a carriage
/// return right before the line feed belongs to the line ending.
pub open spec fn line_end(text: Seq<char>, from: int) -> int {
    let stop = line_stop(text, from);
    if from < stop < text.len() && text[stop - 1] == '\r' {
        stop - 1
    } else {
        stop
    }
}

/// The state after the lines of `text` from position `from` on were read in
/// state `state`, or `None` if one of them cannot be read.
pub open spec fn read_from(text: Seq<char>, from: int, state: MapModel) -> Option<MapModel>
    decreases text.len() + 1 - from,
{
    let stop = line_stop(text, from);
    if 0 <= from < text.len() && from <= stop <= text.len() {
        match state.step(text, from, line_end(text, from)) {
            Some(next) => read_from(text, stop + 1, next),
            None => None,
        }
    } else {
        Some(state)
    }
}

/// What `text` reads as, or `None` if it cannot be read.
pub open spec fn read(text: Seq<char>) -> Option<MapModel> {
    read_from(text, 0, MapModel::start())
}

/// The circles as the model holds them.
pub open spec fn circles(objects: Seq<TaikoCircle>) -> Seq<(u32, u32)> {
    Seq::new(objects.len(), |i: int| (objects[i].time@ as u32, objects[i].variant))
}

/// Reads the line `from..to` as a hit object.
pub fn object_line(chars: &Vec<char>, from: usize, to: usize) -> (object: Result<
    Option<TaikoCircle>,
    ParseError,
>)
    requires
        from <= to <= chars@.len(),
    ensures
        match object {
            Ok(Some(circle)) => object_of(chars@, from as int, to as int) == Some(
                Some((circle.time@ as u32, circle.variant)),
            ),
            Ok(None) => object_of(chars@, from as int, to as int) == Some(
                None::<(u32, u32)>,
            ),
            Err(_) => object_of(chars@, from as int, to as int).is_none(),
        },
{
    let time: u32 = match nth_field(chars, ',', from, to, 2) {
        None => {
            return Ok(None);
        },
        Some((time_from, time_to)) => match parse_number(chars, time_from, time_to) {
            None => {
                return Err(ParseError::InvalidNumber);
            },
            Some(time) => time,
        },
    };
    let hit_sound: u32 = match nth_field(chars, ',', from, to, 4) {
        None => {
            return Ok(None);
        },
        Some((sound_from, sound_to)) => match parse_number(chars, sound_from, sound_to) {
            None => {
                return Err(ParseError::InvalidNumber);
            },
            Some(hit_sound) => hit_sound,
        },
    };
    let kat: bool = bit(hit_sound, 1) || bit(hit_sound, 3);
    let variant: u32 = with_bit(with_bit(0, 0, kat), 1, bit(hit_sound, 2));
    Ok(Some(TaikoCircle { time: Time::from_ms(time), variant }))
}

/// Reads the line `from..to` as an entry of the header.
pub fn header_line(chars: &Vec<char>, from: usize, to: usize) -> (entry: Option<
    (HeaderKey, usize, usize),
>)
    requires
        from <= to <= chars@.len(),
    ensures
        match entry {
            Some((key, value_from, value_to)) => {
                &&& header_of(chars@, from as int, to as int) == Some(
                    (key, value_from as int, value_to as int),
                )
                &&& from <= value_from <= value_to <= to
            },
            None => header_of(chars@, from as int, to as int).is_none(),
        },
{
    match nth_field(chars, ':', from, to, 1) {
        None => None,
        Some((value_from, value_to)) => {
            let key_to = find_char(chars, ':', from, to);
            let key = trim(chars, from, key_to);
            let value = trim(chars, value_from, value_to);
            if range_is(chars, key.0, key.1, "Title") {
                Some((HeaderKey::Title, value.0, value.1))
            } else if range_is(chars, key.0, key.1, "Artist") {
                Some((HeaderKey::Artist, value.0, value.1))
            } else if range_is(chars, key.0, key.1, "AudioFilename") {
                Some((HeaderKey::AudioFilename, value.0, value.1))
            } else {
                None
            }
        },
    }
}

/// Reads a beatmap. Fails exactly when the time or the hit sound of a hit
/// object is there and is not a number. The creator is not read.
pub fn parse(data: &str) -> (parsed: Result<(Beatmap, Vec<TaikoCircle>), ParseError>)
    ensures
        match parsed {
            Ok((beatmap, objects)) => {
                &&& read(data@).is_some()
                &&& beatmap.title@ == read(data@).unwrap().title
                &&& beatmap.artist@ == read(data@).unwrap().artist
                &&& beatmap.audio@ == read(data@).unwrap().audio
                &&& beatmap.creator@ == Seq::<char>::empty()
                &&& circles(objects@) == read(data@).unwrap().objects
            },
            Err(_) => read(data@).is_none(),
        },
{
    let chars = chars_of(data);
    let len: usize = chars.len();
    let mut title: (usize, usize) = (0, 0);
    let mut artist: (usize, usize) = (0, 0);
    let mut audio: (usize, usize) = (0, 0);
    let mut objects: Vec<TaikoCircle> = Vec::new();
    let mut in_objects: bool = false;
    let mut from: usize = 0;
    let mut more: bool = true;
    let ghost mut state = MapModel::start();
    proof {
        assert(chars@.subrange(0, 0) =~= Seq::<char>::empty());
        assert(circles(objects@) =~= Seq::<(u32, u32)>::empty());
    }
    while more && from < len
        invariant
            chars@ == data@,
            len == chars@.len(),
            from <= len,
            title.0 <= title.1 <= len,
            artist.0 <= artist.1 <= len,
            audio.0 <= audio.1 <= len,
            state == (MapModel {
                title: chars@.subrange(title.0 as int, title.1 as int),
                artist: chars@.subrange(artist.0 as int, artist.1 as int),
                audio: chars@.subrange(audio.0 as int, audio.1 as int),
                objects: circles(objects@),
                in_objects,
            }),
            more ==> read(chars@) == read_from(chars@, from as int, state),
            !more ==> read(chars@) == Some(state),
        decreases (if more { 1int } else { 0int }), len - from,
    {
        let ghost before_line = state;
        let stop = find_char(&chars, '\n', from, len);
        let to: usize = if from < stop && stop < len && chars[stop - 1] == '\r' {
            stop - 1
        } else {
            stop
        };
        if in_objects {
            match object_line(&chars, from, to) {
                Err(error) => {
                    return Err(error);
                },
                Ok(None) => {},
                Ok(Some(circle)) => {
                    let ghost before = objects@;
                    objects.push(circle);
                    proof {
                        assert(circles(objects@) =~= circles(before).push(
                            (circle.time@ as u32, circle.variant),
                        ));
                        state = MapModel { objects: circles(objects@), ..state };
                    }
                },
            }
        } else if has_prefix(&chars, from, to, "[HitObjects]") {
            in_objects = true;
            proof {
                state = MapModel { in_objects: true, ..state };
            }
        } else {
            match header_line(&chars, from, to) {
                Some((key, value_from, value_to)) => {
                    proof {
                        state = state.with_entry(
                            key,
                            chars@.subrange(value_from as int, value_to as int),
                        );
                    }
                    match key {
                        HeaderKey::Title => {
                            title = (value_from, value_to);
                        },
                        HeaderKey::Artist => {
                            artist = (value_from, value_to);
                        },
                        HeaderKey::AudioFilename => {
                            audio = (value_from, value_to);
                        },
                    }
                },
                None => {},
            }
        }
        proof {
            assert(before_line.step(chars@, from as int, to as int) == Some(state));
            assert(read_from(chars@, from as int, before_line) == read_from(
                chars@,
                stop + 1,
                state,
            ));
            if stop >= len {
                assert(read_from(chars@, stop + 1, state) == Some(state));
            }
        }
        if stop < len {
            from = stop + 1;
        } else {
            more = false;
        }
    }
    let beatmap = Beatmap {
        artist: data.substring_char(artist.0, artist.1).to_owned(),
        title: data.substring_char(title.0, title.1).to_owned(),
        creator: String::new(),
        audio: data.substring_char(audio.0, audio.1).to_owned(),
    };
    Ok((beatmap, objects))
}

} // verus!
