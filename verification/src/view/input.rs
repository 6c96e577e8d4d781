//! What the views take from the keyboard.

use vstd::prelude::*;

verus! {

/// Whether `chr` lies in one of the private use areas of Unicode.
pub open spec fn in_private_use_area(chr: char) -> bool {
    let code = chr as u32;
    ||| 0xe000 <= code <= 0xf8ff
    ||| 0xf0000 <= code <= 0xffffd
    ||| 0x100000 <= code <= 0x10fffd
}

/// Whether `chr` is a control character of ASCII.
pub open spec fn is_ascii_control(chr: char) -> bool {
    let code = chr as u32;
    code <= 0x1f || code == 0x7f
}

/// Tells whether `chr` is text that a view takes as typed: anything but a
/// control character of ASCII or a character of a private use area.
pub fn is_printable_char(chr: char) -> (printable: bool)
    ensures
        printable == (!in_private_use_area(chr) && !is_ascii_control(chr)),
{
    let code: u32 = chr as u32;
    let is_in_private_use_area = (0xe000 <= code && code <= 0xf8ff) || (0xf0000 <= code && code
        <= 0xffffd) || (0x100000 <= code && code <= 0x10fffd);
    let is_control = code <= 0x1f || code == 0x7f;
    !is_in_private_use_area && !is_control
}

} // verus!
