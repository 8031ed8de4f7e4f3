//! Character-level helpers: ASCII case folding and Unicode whitespace,
//! used by the string utilities and the HTML-response heuristic.

use vstd::prelude::*;

verus! {

/// An ASCII upper-case letter.
pub open spec fn spec_is_ascii_upper(c: char) -> bool {
    65 <= c as u32 <= 90
}

/// A whitespace character: the Unicode White_Space set, the same set
/// that str::trim_start removes — the ASCII whitespace characters, the
/// next line and no-break space controls, and the Unicode space marks.
pub open spec fn spec_is_space(c: char) -> bool {
    (9 <= c as u32 <= 13) || c as u32 == 32 || c as u32 == 0x85 || c as u32 == 0xA0 || c as u32
        == 0x1680 || (0x2000 <= c as u32 <= 0x200A) || c as u32 == 0x2028 || c as u32 == 0x2029
        || c as u32 == 0x202F || c as u32 == 0x205F || c as u32 == 0x3000
}

/// Two characters are equal up to ASCII case.
pub open spec fn spec_eq_ignore_case(a: char, b: char) -> bool {
    a == b
    || (spec_is_ascii_upper(a) && b as u32 == a as u32 + 32)
    || (spec_is_ascii_upper(b) && a as u32 == b as u32 + 32)
}

pub fn is_space(c: char) -> (r: bool)
    ensures
        r == spec_is_space(c),
{
    let x = c as u32;
    (9 <= x && x <= 13) || x == 32 || x == 0x85 || x == 0xA0 || x == 0x1680 || (0x2000 <= x && x
        <= 0x200A) || x == 0x2028 || x == 0x2029 || x == 0x202F || x == 0x205F || x == 0x3000
}

pub fn eq_ignore_case(a: char, b: char) -> (r: bool)
    ensures
        r == spec_eq_ignore_case(a, b),
{
    let x = a as u32;
    let y = b as u32;
    a == b
    || (65 <= x && x <= 90 && y == x + 32)
    || (65 <= y && y <= 90 && x == y + 32)
}

} // verus!
