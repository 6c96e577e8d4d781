use r3gl::beatmap::beatmap::Beatmap;
use r3gl::beatmap::component::adapter::taiko::TaikoColor;
use r3gl::beatmap::component::adapter::taiko::TaikoVariantAdapter;
use r3gl::beatmap::component::time::TimeComponent;
use r3gl::beatmap::component::variant::VariantComponent;
use r3gl::beatmap::component::HitObject;
use r3gl::beatmap::parser::osu_taiko::header_line;
use r3gl::beatmap::parser::osu_taiko::object_line;
use r3gl::beatmap::parser::osu_taiko::HeaderKey;
use r3gl::beatmap::parser::osu_taiko::ParseError;
use r3gl::beatmap::parser::osu_taiko::TaikoCircle;
use r3gl::beatmap::parser::parse;
use r3gl::beatmap::parser::text::chars_of;
use r3gl::beatmap::parser::text::find_char;
use r3gl::beatmap::parser::text::has_prefix;
use r3gl::beatmap::parser::text::is_whitespace;
use r3gl::beatmap::parser::text::nth_field;
use r3gl::beatmap::parser::text::parse_number;
use r3gl::beatmap::parser::text::range_is;
use r3gl::beatmap::parser::text::trim;
use r3gl::beatmap::taiko::hitobject::HitObject as TaikoHitObject;
use r3gl::beatmap::Time;

fn circle(time: u32, variant: u32) -> TaikoCircle {
    TaikoCircle { time: Time::from_ms(time), variant }
}

fn number(text: &str) -> Option<u32> {
    let chars = chars_of(text);
    parse_number(&chars, 0, chars.len())
}

#[test]
fn time_is_counted_in_milliseconds() {
    assert_eq!(Time::from_ms(1500).as_ms(), 1500);
    assert_eq!(Time::default().as_ms(), 0);
    assert_eq!(Time::from_nanos(1_500_999_999).as_ms(), 1500);
    assert_eq!(Time::from_nanos(999_999).as_ms(), 0);
    assert_eq!(Time::from_nanos(4_294_967_296_000_000 + 7_000_000).as_ms(), 7);
    assert!(Time::from_ms(1) < Time::from_ms(2));
    assert_eq!(Time::from_ms(3), Time::from_ms(3));
}

#[test]
fn default_beatmap_is_blank() {
    let beatmap = Beatmap::default();
    assert_eq!(beatmap.artist, "");
    assert_eq!(beatmap.title, "");
    assert_eq!(beatmap.creator, "");
    assert_eq!(beatmap.audio, "");
}

#[test]
fn default_hit_object_is_a_small_don_at_zero() {
    let object = TaikoHitObject::default();
    assert_eq!(object.time.as_ms(), 0);
    assert!(!object.kat);
    assert!(!object.big);
}

#[test]
fn circle_has_both_components() {
    let mut object = circle(250, 2);
    assert_eq!(object.get_time(), 250);
    assert_eq!(object.get_variant(), 2);
    assert_eq!(object.time(), Some(Time::from_ms(250)));
    assert_eq!(object.variant(), Some(2));
    object.set_time(300);
    object.set_variant(1);
    assert_eq!(object, circle(300, 1));
}

#[test]
fn colors_are_kat_and_don() {
    assert_eq!(TaikoColor::kat(), TaikoColor(true));
    assert_eq!(TaikoColor::don(), TaikoColor(false));
    assert_eq!(TaikoColor::default(), TaikoColor::don());
}

#[test]
fn bit_zero_tells_kat_from_don() {
    let mut object = circle(0, 0);
    assert!(object.is_don());
    assert!(!object.is_kat());
    assert_eq!(object.get_color(), TaikoColor::don());
    object.set_color(TaikoColor::kat());
    assert_eq!(object.get_variant(), 1);
    assert!(object.is_kat());
    assert!(!object.is_don());
    assert_eq!(object.get_color(), TaikoColor::kat());
    object.switch_color();
    assert_eq!(object.get_variant(), 0);
    object.switch_color();
    assert_eq!(object.get_variant(), 1);
    object.set_color(TaikoColor::don());
    assert_eq!(object.get_variant(), 0);
}

#[test]
fn bit_one_tells_big_from_small() {
    let mut object = circle(0, 1);
    assert!(!object.is_big());
    object.set_big(true);
    assert_eq!(object.get_variant(), 3);
    assert!(object.is_big());
    assert!(object.is_kat());
    object.toggle_big();
    assert_eq!(object.get_variant(), 1);
    object.toggle_big();
    assert_eq!(object.get_variant(), 3);
    object.set_big(false);
    assert_eq!(object.get_variant(), 1);
}

#[test]
fn other_bits_are_left_alone() {
    let mut object = circle(0, 0xffff_fff0);
    object.set_big(true);
    object.set_color(TaikoColor::kat());
    assert_eq!(object.get_variant(), 0xffff_fff3);
    object.set_big(false);
    assert_eq!(object.get_variant(), 0xffff_fff1);
    assert!(object.is_kat());
    assert!(!object.is_big());
}

#[test]
fn characters_are_found_in_a_range() {
    let chars = chars_of("a,b,,c");
    assert_eq!(chars.len(), 6);
    assert_eq!(find_char(&chars, ',', 0, 6), 1);
    assert_eq!(find_char(&chars, ',', 2, 6), 3);
    assert_eq!(find_char(&chars, ',', 5, 6), 6);
    assert_eq!(find_char(&chars, ',', 0, 1), 1);
    assert_eq!(find_char(&chars, 'x', 0, 6), 6);
    assert_eq!(find_char(&chars, 'a', 3, 3), 3);
}

#[test]
fn characters_are_not_bytes() {
    let chars = chars_of("é,ü");
    assert_eq!(chars, vec!['é', ',', 'ü']);
    assert_eq!(chars_of(""), vec![]);
}

#[test]
fn fields_are_cut_at_the_separator() {
    let chars = chars_of("a,bc,,d");
    assert_eq!(nth_field(&chars, ',', 0, 7, 0), Some((0, 1)));
    assert_eq!(nth_field(&chars, ',', 0, 7, 1), Some((2, 4)));
    assert_eq!(nth_field(&chars, ',', 0, 7, 2), Some((5, 5)));
    assert_eq!(nth_field(&chars, ',', 0, 7, 3), Some((6, 7)));
    assert_eq!(nth_field(&chars, ',', 0, 7, 4), None);
    assert_eq!(nth_field(&chars, ',', 0, 7, 9), None);
    assert_eq!(nth_field(&chars, ',', 2, 4, 0), Some((2, 4)));
    assert_eq!(nth_field(&chars, ',', 2, 4, 1), None);
    assert_eq!(nth_field(&chars, ',', 3, 3, 0), Some((3, 3)));
    assert_eq!(nth_field(&chars, ',', 0, 5, 2), Some((5, 5)));
}

#[test]
fn numbers_are_decimal() {
    assert_eq!(number("0"), Some(0));
    assert_eq!(number("12345"), Some(12345));
    assert_eq!(number("+7"), Some(7));
    assert_eq!(number("007"), Some(7));
    assert_eq!(number("4294967295"), Some(4294967295));
    assert_eq!(number("0000000000004294967295"), Some(4294967295));
}

#[test]
fn what_is_not_a_number_is_turned_down() {
    assert_eq!(number(""), None);
    assert_eq!(number("+"), None);
    assert_eq!(number("-1"), None);
    assert_eq!(number("++1"), None);
    assert_eq!(number("1+"), None);
    assert_eq!(number(" 1"), None);
    assert_eq!(number("1 "), None);
    assert_eq!(number("12a"), None);
    assert_eq!(number("1.5"), None);
    assert_eq!(number("4294967296"), None);
    assert_eq!(number("99999999999999999999999999"), None);
    assert_eq!(number("٣"), None);
}

#[test]
fn numbers_agree_with_the_standard_reading() {
    for text in ["0", "+0", "42", "+42", "-42", "", "+", "4294967295", "4294967296", "1e3", "0x10"] {
        assert_eq!(number(text), text.parse::<u32>().ok());
    }
}

#[test]
fn white_space_is_what_unicode_says() {
    let mut code = 0u32;
    while code < 0x11_0000 {
        if let Some(c) = char::from_u32(code) {
            assert_eq!(is_whitespace(c), c.is_whitespace());
        }
        code += 1;
    }
}

#[test]
fn trimming_drops_white_space_at_both_ends() {
    let chars = chars_of(" \t a b \u{3000}\r");
    assert_eq!(trim(&chars, 0, chars.len()), (3, 6));
    assert_eq!(trim(&chars, 3, 6), (3, 6));
    assert_eq!(trim(&chars, 4, 5), (5, 5));
    assert_eq!(trim(&chars, 0, 3), (3, 3));
    assert_eq!(trim(&chars, 2, 2), (2, 2));
}

#[test]
fn words_are_compared_in_full() {
    let chars = chars_of("xTitle: y");
    assert!(range_is(&chars, 1, 6, "Title"));
    assert!(!range_is(&chars, 1, 5, "Title"));
    assert!(!range_is(&chars, 0, 5, "Title"));
    assert!(!range_is(&chars, 1, 7, "Title"));
    assert!(range_is(&chars, 3, 3, ""));
    assert!(has_prefix(&chars, 1, 9, "Title"));
    assert!(has_prefix(&chars, 1, 6, "Title"));
    assert!(!has_prefix(&chars, 1, 5, "Title"));
    assert!(!has_prefix(&chars, 0, 9, "Title"));
    assert!(has_prefix(&chars, 0, 9, ""));
}

#[test]
fn header_lines_set_entries() {
    let chars = chars_of("  Title :  My Song  : rest");
    assert_eq!(header_line(&chars, 0, chars.len()), Some((HeaderKey::Title, 11, 18)));
    let chars = chars_of("Artist:");
    assert_eq!(header_line(&chars, 0, chars.len()), Some((HeaderKey::Artist, 7, 7)));
    let chars = chars_of("AudioFilename: audio.mp3");
    assert_eq!(header_line(&chars, 0, chars.len()), Some((HeaderKey::AudioFilename, 15, 24)));
    let chars = chars_of("Creator: me");
    assert_eq!(header_line(&chars, 0, chars.len()), None);
    let chars = chars_of("Title");
    assert_eq!(header_line(&chars, 0, chars.len()), None);
    let chars = chars_of("title: x");
    assert_eq!(header_line(&chars, 0, chars.len()), None);
}

#[test]
fn object_lines_make_circles() {
    let chars = chars_of("256,192,1500,1,0,0:0:0:0:");
    assert_eq!(object_line(&chars, 0, chars.len()), Ok(Some(circle(1500, 0))));
    let chars = chars_of("256,192,1500,1,2");
    assert_eq!(object_line(&chars, 0, chars.len()), Ok(Some(circle(1500, 1))));
    let chars = chars_of("256,192,1500,1,8");
    assert_eq!(object_line(&chars, 0, chars.len()), Ok(Some(circle(1500, 1))));
    let chars = chars_of("256,192,1500,1,4");
    assert_eq!(object_line(&chars, 0, chars.len()), Ok(Some(circle(1500, 2))));
    let chars = chars_of("256,192,1500,1,12");
    assert_eq!(object_line(&chars, 0, chars.len()), Ok(Some(circle(1500, 3))));
    let chars = chars_of("256,192,1500,1,1");
    assert_eq!(object_line(&chars, 0, chars.len()), Ok(Some(circle(1500, 0))));
    let chars = chars_of("x,y,+20,z,15,");
    assert_eq!(object_line(&chars, 0, chars.len()), Ok(Some(circle(20, 3))));
}

#[test]
fn object_lines_with_few_fields_make_nothing() {
    for text in ["", "1", "1,2", "1,2,3", "1,2,3,4"] {
        let chars = chars_of(text);
        assert_eq!(object_line(&chars, 0, chars.len()), Ok(None));
    }
}

#[test]
fn object_lines_with_bad_numbers_fail() {
    for text in ["1,2,x", "1,2,,4,5", "1,2,3,4,", "1,2,3,4,x", "1,2, 3,4,5", "1,2,-3,4,5", "1,2,x,4"] {
        let chars = chars_of(text);
        assert_eq!(object_line(&chars, 0, chars.len()), Err(ParseError::InvalidNumber));
    }
}

#[test]
fn a_beatmap_is_read_line_by_line() {
    let data = "osu file format v14\n\n[General]\nAudioFilename: audio.mp3\nCountdown: 1\n\n\
                [Metadata]\nTitle:Some Title\nArtist: Someone \nCreator:me\n\n\
                [HitObjects]\n256,192,1000,1,0,0:0:0:0:\n256,192,1500,1,8,0:0:0:0:\n\
                256,192,2000,5,4\nshort,line\n256,192,2500,1,6\n";
    let (beatmap, objects) = parse(data).unwrap();
    assert_eq!(beatmap.title, "Some Title");
    assert_eq!(beatmap.artist, "Someone");
    assert_eq!(beatmap.audio, "audio.mp3");
    assert_eq!(beatmap.creator, "");
    assert_eq!(
        objects,
        vec![circle(1000, 0), circle(1500, 1), circle(2000, 2), circle(2500, 3)]
    );
}

#[test]
fn windows_line_endings_are_line_endings() {
    let data = "Title: A\r\nArtist: B\r\n[HitObjects]\r\n1,2,30,4,2\r\n1,2,40,4,4";
    let (beatmap, objects) = parse(data).unwrap();
    assert_eq!(beatmap.title, "A");
    assert_eq!(beatmap.artist, "B");
    assert_eq!(objects, vec![circle(30, 1), circle(40, 2)]);
}

#[test]
fn a_lone_carriage_return_ends_no_line() {
    let data = "[HitObjects]\n1,2,30,4,2\r";
    assert_eq!(parse(data).err(), Some(ParseError::InvalidNumber));
    let data = "[HitObjects]\n1,2,30,4,2\r\n";
    assert_eq!(parse(data).unwrap().1, vec![circle(30, 1)]);
}

#[test]
fn later_entries_win_and_the_header_ends_with_the_objects() {
    let data = "Title: A\nTitle: B\n  [HitObjects]\nTitle: C\n[HitObjects] \nTitle: D\n";
    let (beatmap, objects) = parse(data).unwrap();
    assert_eq!(beatmap.title, "C");
    assert_eq!(objects, vec![]);
}

#[test]
fn an_empty_beatmap_is_blank() {
    let (beatmap, objects) = parse("").unwrap();
    assert_eq!(beatmap.title, "");
    assert_eq!(beatmap.artist, "");
    assert_eq!(beatmap.audio, "");
    assert_eq!(objects, vec![]);
    let (beatmap, objects) = parse("\n\n\n").unwrap();
    assert_eq!(beatmap.title, "");
    assert_eq!(objects, vec![]);
}

#[test]
fn a_bad_number_fails_the_whole_beatmap() {
    let data = "Title: A\n[HitObjects]\n1,2,30,4,2\n1,2,x,4,2\n1,2,50,4,2\n";
    assert_eq!(parse(data).err(), Some(ParseError::InvalidNumber));
    let data = "Title: A\n[HitObjects]\n1,2,30,4,2\n1,2,4294967296,4,2\n";
    assert_eq!(parse(data).err(), Some(ParseError::InvalidNumber));
}

#[test]
fn values_keep_their_letters() {
    let data = "Title:  夜に駆ける \nArtist:\u{3000}YOASOBI\u{3000}\nAudioFilename: a b.mp3\n";
    let (beatmap, _) = parse(data).unwrap();
    assert_eq!(beatmap.title, "夜に駆ける");
    assert_eq!(beatmap.artist, "YOASOBI");
    assert_eq!(beatmap.audio, "a b.mp3");
}

#[test]
fn both_parsers_read_alike() {
    let data = "Title: A\n[HitObjects]\n1,2,30,4,2\n";
    let (a, objects_a) = parse(data).unwrap();
    let (b, objects_b) = r3gl::beatmap::parser::osu_taiko::parse(data).unwrap();
    assert_eq!(a.title, b.title);
    assert_eq!(objects_a, objects_b);
}
