//! Character classes shared by the value objects: whitespace for trimming
//! and format checks, and the handle alphabet.
use vstd::prelude::*;

verus! {

/// Whitespace as far as trimming and format checks are concerned: the
/// Unicode `White_Space` characters — the same set that trimming and the
/// usual whitespace character class recognize.
pub open spec fn is_space_char(c: char) -> bool {
    let v = c as u32;
    (9 <= v && v <= 13)  // tab, line feed, vertical tab, form feed, carriage return
     || v == 0x20  // space
     || v == 0x85  // next line
     || v == 0xa0  // no-break space
     || v == 0x1680  // ogham space mark
     || (0x2000 <= v && v <= 0x200a)  // en quad .. hair space
     || v == 0x2028  // line separator
     || v == 0x2029  // paragraph separator
     || v == 0x202f  // narrow no-break space
     || v == 0x205f  // medium mathematical space
     || v == 0x3000  // ideographic space
}

pub fn is_space(c: char) -> (r: bool)
    ensures
        r == is_space_char(c),
{
    let v = c as u32;
    (9 <= v && v <= 13) || v == 0x20 || v == 0x85 || v == 0xa0 || v == 0x1680 || (0x2000 <= v && v
        <= 0x200a) || v == 0x2028 || v == 0x2029 || v == 0x202f || v == 0x205f || v == 0x3000
}

/// What `char::is_alphanumeric` returns: whether the character is a Unicode
/// letter or number.
pub uninterp spec fn alnum(c: char) -> bool;

/// An ASCII letter or digit.
pub open spec fn is_ascii_alnum_char(c: char) -> bool {
    (97 <= c as u32 && c as u32 <= 122)  // 'a' ..= 'z'
     || (65 <= c as u32 && c as u32 <= 90)  // 'A' ..= 'Z'
     || (48 <= c as u32 && c as u32 <= 57)  // '0' ..= '9'
}

/// Relies on `char::is_alphanumeric`: a property of the character alone
/// (Unicode `Alphabetic` or `Number`). On ASCII it holds of exactly the
/// letters and digits.
#[verifier::external_body]
fn is_alphanumeric_char(c: char) -> (r: bool)
    ensures
        r == alnum(c),
        is_ascii_alnum_char(c) ==> r,
        ((c as u32) < 128 && !is_ascii_alnum_char(c)) ==> !r,
{
    c.is_alphanumeric()
}

/// The characters a handle may contain: Unicode alphanumerics, `_` and `-`.
pub open spec fn is_handle_char(c: char) -> bool {
    alnum(c) || c == '_' || c == '-'
}

pub fn is_handle(c: char) -> (r: bool)
    ensures
        r == is_handle_char(c),
{
    is_alphanumeric_char(c) || c == '_' || c == '-'
}

} // verus!
