//! How many terminal columns a character takes.

use unicode_width::UnicodeWidthChar;
use vstd::prelude::*;

verus! {

/// What the width tables of `unicode-width` hold for a character from U+00A0 on.
pub uninterp spec fn table_width(c: char) -> Option<usize>;

/// The number of columns that a character takes when it is displayed, or `None` for a
/// control character.
///
/// Up to U+009F the width is fixed: the printable ASCII characters take one column, and
/// the two blocks of control codes have none. From U+00A0 on it is looked up in the
/// tables of `unicode-width`.
pub open spec fn display_width(c: char) -> Option<usize> {
    if (c as u32) < 0x20 {
        None
    } else if (c as u32) < 0x7F {
        Some(1usize)
    } else if (c as u32) < 0xA0 {
        None
    } else {
        table_width(c)
    }
}

/// `UnicodeWidthChar::width` of `unicode-width`: `None` for the control characters below
/// U+0020 and from U+007F up to U+009F, one column for printable ASCII, and what the
/// crate's tables hold for every other character.
#[verifier::external_body]
pub fn char_width(c: char) -> (w: Option<usize>)
    ensures
        w == display_width(c),
        (c as u32) >= 0xA0 ==> w == table_width(c),
{
    UnicodeWidthChar::width(c)
}

/// The character that an iterator over a text has just handed out.
pub(crate) fn present(next: Option<char>) -> (c: char)
    requires
        next is Some,
    ensures
        next == Some(c),
{
    match next {
        Some(c) => c,
        None => ' ',
    }
}

} // verus!
