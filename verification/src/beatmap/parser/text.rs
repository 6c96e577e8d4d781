//! Scanning text: finding characters, cutting fields, trimming blanks and
//! reading numbers, all on a range of a sequence of characters.

use vstd::prelude::*;
use vstd::std_specs::iter::IteratorSpec;
use vstd::string::StrSliceExecFns;

verus! {

broadcast use {vstd::string::axiom_spec_iter, vstd::string::next_postcondition};

/// The first position in `from..to` at which `text` holds `c`, or `to` if
/// there is none.
pub open spec fn find(text: Seq<char>, c: char, from: int, to: int) -> int
    decreases to - from,
{
    if from >= to {
        to
    } else if text[from] == c {
        from
    } else {
        find(text, c, from + 1, to)
    }
}

/// Where field `k` of the range `from..to` starts, the fields being
/// separated by `sep`; `None` if the range has no more than `k` fields.
pub open spec fn field_start(text: Seq<char>, sep: char, from: int, to: int, k: nat) -> Option<int>
    decreases k,
{
    if k == 0 {
        Some(from)
    } else {
        match field_start(text, sep, from, to, (k - 1) as nat) {
            Some(start) => {
                let end = find(text, sep, start, to);
                if end < to {
                    Some(end + 1)
                } else {
                    None
                }
            },
            None => None,
        }
    }
}

/// The bounds of field `k` of the range `from..to`, the fields being
/// separated by `sep`; `None` if the range has no more than `k` fields.
pub open spec fn field(text: Seq<char>, sep: char, from: int, to: int, k: nat) -> Option<
    (int, int),
> {
    match field_start(text, sep, from, to, k) {
        Some(start) => Some((start, find(text, sep, start, to))),
        None => None,
    }
}

/// Whether `c` is a decimal digit.
pub open spec fn is_digit(c: char) -> bool {
    '0' <= c <= '9'
}

/// The number that the digits in `from..to` spell.
pub open spec fn digits_value(text: Seq<char>, from: int, to: int) -> nat
    decreases to - from,
{
    if from >= to {
        0
    } else {
        digits_value(text, from, to - 1) * 10 + (text[to - 1] as nat - '0' as nat) as nat
    }
}

/// Whether `from..to` holds decimal digits only.
pub open spec fn all_digits(text: Seq<char>, from: int, to: int) -> bool {
    forall|i: int| from <= i < to ==> is_digit(#[trigger] text[i])
}

/// Where the digits of a number in `from..to` start: behind a leading plus
/// sign, if there is one.
pub open spec fn digits_start(text: Seq<char>, from: int, to: int) -> int {
    if from < to && text[from] == '+' {
        from + 1
    } else {
        from
    }
}

/// The number that `from..to` spells: an optional plus sign followed by at
/// least one decimal digit and nothing else, with a value that 32 bits hold.
/// `None` for any other text.
pub open spec fn number(text: Seq<char>, from: int, to: int) -> Option<u32> {
    let start = digits_start(text, from, to);
    if start < to && all_digits(text, start, to) && digits_value(text, start, to) <= u32::MAX {
        Some(digits_value(text, start, to) as u32)
    } else {
        None
    }
}

/// More digits never spell a smaller number.
pub proof fn lemma_digits_grow(text: Seq<char>, from: int, mid: int, to: int)
    requires
        from <= mid <= to,
        all_digits(text, from, to),
    ensures
        digits_value(text, from, mid) <= digits_value(text, from, to),
    decreases to - mid,
{
    if mid < to {
        lemma_digits_grow(text, from, mid, to - 1);
        assert(is_digit(text[to - 1]));
    }
}

/// Whether `c` is white space, as Unicode defines it.
pub open spec fn is_space(c: char) -> bool {
    let code = c as u32;
    ||| 0x09 <= code <= 0x0d
    ||| code == 0x20
    ||| code == 0x85
    ||| code == 0xa0
    ||| code == 0x1680
    ||| 0x2000 <= code <= 0x200a
    ||| code == 0x2028
    ||| code == 0x2029
    ||| code == 0x202f
    ||| code == 0x205f
    ||| code == 0x3000
}

/// Where `from..to` starts once the white space at its front is dropped.
pub open spec fn trim_start(text: Seq<char>, from: int, to: int) -> int
    decreases to - from,
{
    if from < to && is_space(text[from]) {
        trim_start(text, from + 1, to)
    } else {
        from
    }
}

/// Where `from..to` ends once the white space at its back is dropped.
pub open spec fn trim_end(text: Seq<char>, from: int, to: int) -> int
    decreases to - from,
{
    if from < to && is_space(text[to - 1]) {
        trim_end(text, from, to - 1)
    } else {
        to
    }
}

/// The bounds of `from..to` without the white space at either end.
pub open spec fn trimmed(text: Seq<char>, from: int, to: int) -> (int, int) {
    let start = trim_start(text, from, to);
    (start, trim_end(text, start, to))
}

/// The characters of `text`, one by one.
pub fn chars_of(text: &str) -> (chars: Vec<char>)
    ensures
        chars@ == text@,
{
    let mut chars: Vec<char> = Vec::new();
    let mut rest = text.chars();
    loop
        invariant
            rest.obeys_prophetic_iter_laws(),
            rest.decrease() is Some,
            chars@ + rest.remaining() == text@,
        ensures
            chars@ == text@,
        decreases rest.decrease()->0,
    {
        let ghost before = rest.remaining();
        match rest.next() {
            Some(c) => {
                chars.push(c);
                assert(chars@ + rest.remaining() =~= text@) by {
                    assert(before =~= seq![c] + before.drop_first());
                }
            },
            None => {
                assert(chars@ =~= text@);
                break ;
            },
        }
    }
    chars
}

/// Finds the first position in `from..to` at which `chars` holds `c`, or
/// `to` if there is none.
pub fn find_char(chars: &Vec<char>, c: char, from: usize, to: usize) -> (at: usize)
    requires
        from <= to <= chars@.len(),
    ensures
        at == find(chars@, c, from as int, to as int),
        from <= at <= to,
{
    let mut at: usize = from;
    while at < to && chars[at] != c
        invariant
            from <= at <= to <= chars@.len(),
            find(chars@, c, from as int, to as int) == find(chars@, c, at as int, to as int),
        decreases to - at,
    {
        at += 1;
    }
    at
}

/// Cuts field `k` out of `from..to`, the fields being separated by `sep`.
pub fn nth_field(chars: &Vec<char>, sep: char, from: usize, to: usize, k: usize) -> (bounds:
    Option<(usize, usize)>)
    requires
        from <= to <= chars@.len(),
    ensures
        match bounds {
            Some((start, end)) => {
                &&& field(chars@, sep, from as int, to as int, k as nat) == Some(
                    (start as int, end as int),
                )
                &&& from <= start <= end <= to
            },
            None => field(chars@, sep, from as int, to as int, k as nat).is_none(),
        },
{
    let mut start: usize = from;
    let mut j: usize = 0;
    while j < k
        invariant
            from <= start <= to <= chars@.len(),
            j <= k,
            field_start(chars@, sep, from as int, to as int, j as nat) == Some(start as int),
        decreases k - j,
    {
        let end = find_char(chars, sep, start, to);
        if end < to {
            start = end + 1;
            j += 1;
        } else {
            proof {
                lemma_no_later_field(chars@, sep, from as int, to as int, (j + 1) as nat, k as nat);
            }
            return None;
        }
    }
    let end = find_char(chars, sep, start, to);
    Some((start, end))
}

/// Behind a field that is missing, every field is missing.
pub proof fn lemma_no_later_field(text: Seq<char>, sep: char, from: int, to: int, j: nat, k: nat)
    requires
        j <= k,
        field_start(text, sep, from, to, j).is_none(),
    ensures
        field_start(text, sep, from, to, k).is_none(),
    decreases k - j,
{
    if j < k {
        lemma_no_later_field(text, sep, from, to, j, (k - 1) as nat);
    }
}

/// Reads the number that `from..to` spells.
pub fn parse_number(chars: &Vec<char>, from: usize, to: usize) -> (value: Option<u32>)
    requires
        from <= to <= chars@.len(),
    ensures
        value == number(chars@, from as int, to as int),
{
    let start: usize = if from < to && chars[from] == '+' {
        from + 1
    } else {
        from
    };
    if start >= to {
        return None;
    }
    let mut value: u64 = 0;
    let mut at: usize = start;
    while at < to
        invariant
            start <= at <= to <= chars@.len(),
            start < to,
            start == digits_start(chars@, from as int, to as int),
            all_digits(chars@, start as int, at as int),
            value == digits_value(chars@, start as int, at as int),
            value <= u32::MAX,
        decreases to - at,
    {
        let c: char = chars[at];
        if !('0' <= c && c <= '9') {
            assert(!is_digit(chars@[at as int]));
            return None;
        }
        let digit: u64 = (c as u32 - '0' as u32) as u64;
        value = value * 10 + digit;
        assert(digits_value(chars@, start as int, at + 1) == value);
        if value > u32::MAX as u64 {
            proof {
                if all_digits(chars@, start as int, to as int) {
                    lemma_digits_grow(chars@, start as int, at + 1, to as int);
                }
            }
            return None;
        }
        at += 1;
    }
    Some(value as u32)
}

/// Tells whether `c` is white space.
pub fn is_whitespace(c: char) -> (space: bool)
    ensures
        space == is_space(c),
{
    let code: u32 = c as u32;
    (0x09 <= code && code <= 0x0d) || code == 0x20 || code == 0x85 || code == 0xa0 || code
        == 0x1680 || (0x2000 <= code && code <= 0x200a) || code == 0x2028 || code == 0x2029
        || code == 0x202f || code == 0x205f || code == 0x3000
}

/// Drops the white space at both ends of `from..to`.
pub fn trim(chars: &Vec<char>, from: usize, to: usize) -> (bounds: (usize, usize))
    requires
        from <= to <= chars@.len(),
    ensures
        (bounds.0 as int, bounds.1 as int) == trimmed(chars@, from as int, to as int),
        from <= bounds.0 <= bounds.1 <= to,
{
    let mut start: usize = from;
    while start < to && is_whitespace(chars[start])
        invariant
            from <= start <= to <= chars@.len(),
            trim_start(chars@, from as int, to as int) == trim_start(
                chars@,
                start as int,
                to as int,
            ),
        decreases to - start,
    {
        start += 1;
    }
    let mut end: usize = to;
    while start < end && is_whitespace(chars[end - 1])
        invariant
            start <= end <= to <= chars@.len(),
            trim_end(chars@, start as int, to as int) == trim_end(chars@, start as int, end as int),
        decreases end - start,
    {
        end -= 1;
    }
    (start, end)
}

/// Tells whether `from..to` spells exactly `word`.
pub fn range_is(chars: &Vec<char>, from: usize, to: usize, word: &str) -> (same: bool)
    requires
        from <= to <= chars@.len(),
    ensures
        same == (chars@.subrange(from as int, to as int) == word@),
{
    let len: usize = word.unicode_len();
    if to - from != len {
        return false;
    }
    let mut i: usize = 0;
    while i < len
        invariant
            from <= to <= chars@.len(),
            to - from == len,
            len == word@.len(),
            i <= len,
            forall|j: int| 0 <= j < i ==> chars@[from + j] == word@[j],
        decreases len - i,
    {
        if chars[from + i] != word.get_char(i) {
            assert(chars@.subrange(from as int, to as int)[i as int] != word@[i as int]);
            return false;
        }
        i += 1;
    }
    assert(chars@.subrange(from as int, to as int) =~= word@);
    true
}

/// Tells whether `from..to` starts with `word`.
pub fn has_prefix(chars: &Vec<char>, from: usize, to: usize, word: &str) -> (starts: bool)
    requires
        from <= to <= chars@.len(),
    ensures
        starts == (to - from >= word@.len() && chars@.subrange(
            from as int,
            from + word@.len(),
        ) == word@),
{
    let len: usize = word.unicode_len();
    if to - from < len {
        return false;
    }
    range_is(chars, from, from + len, word)
}

} // verus!
