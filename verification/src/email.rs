//! The contact value: an email-shaped string, at most 254 characters,
//! lower-cased before it is stored.
use vstd::prelude::*;
use vstd::string::*;

use crate::text::{is_space, is_space_char};

verus! {

/// Why a contact string was rejected. Length is checked before format.
#[derive(Debug, Clone, Copy, PartialEq, Eq)]
pub enum EmailError {
    InvalidFormat,
    TooLong,
}

/// A validated contact address. The stored text is always the lower-cased
/// form of the accepted input.
#[derive(Debug, PartialEq, Eq, Hash)]
pub struct EmailAddress(String);

/// What `str::to_lowercase` returns for given characters.
pub uninterp spec fn lower_of(s: Seq<char>) -> Seq<char>;

/// An ASCII character.
pub open spec fn is_ascii_char(c: char) -> bool {
    (c as u32) < 128
}

/// An ASCII uppercase letter.
pub open spec fn is_ascii_upper_char(c: char) -> bool {
    65 <= c as u32 && c as u32 <= 90
}

/// Text of ASCII characters only.
pub open spec fn is_ascii_text(s: Seq<char>) -> bool {
    forall|i: int| 0 <= i < s.len() ==> is_ascii_char(#[trigger] s[i])
}

/// The ASCII lowercase of one character: `A`..`Z` shift to `a`..`z`,
/// everything else stays.
pub open spec fn ascii_lower_char(c: char) -> char {
    if 65 <= c as u32 && c as u32 <= 90 {
        (((c as u32) + 32) as u8) as char
    } else {
        c
    }
}

/// The pointwise ASCII lowercase of a text.
pub open spec fn ascii_lower_of(s: Seq<char>) -> Seq<char> {
    Seq::new(s.len(), |i: int| ascii_lower_char(s[i]))
}

/// No ASCII uppercase letter anywhere.
pub open spec fn has_no_ascii_upper(s: Seq<char>) -> bool {
    forall|i: int| 0 <= i < s.len() ==> !is_ascii_upper_char(#[trigger] s[i])
}

/// Relies on str::to_lowercase: the result is determined by the input
/// characters alone (the Unicode lowercase mapping, locale-independent).
/// On ASCII input it is the pointwise `A`..`Z` to `a`..`z` shift; a
/// lowercased string lowercases to itself; and no character's lowercase
/// mapping is an ASCII capital, so none remains in the result.
#[verifier::external_body]
fn lowercase(s: &str) -> (r: String)
    ensures
        r@ == lower_of(s@),
        is_ascii_text(s@) ==> r@ == ascii_lower_of(s@),
        lower_of(r@) == r@,
        has_no_ascii_upper(r@),
{
    s.to_lowercase()
}

/// Pointwise ASCII lowercasing keeps the accepted shape: the `@` and the
/// dot stay where they were, and no shifted letter becomes whitespace, an
/// `@` or anything else the shape forbids.
proof fn lemma_ascii_lower_keeps_email_shape(s: Seq<char>)
    requires
        valid_email(s),
    ensures
        valid_email(ascii_lower_of(s)),
{
    let (a, d) = choose|a: int, d: int| at_ok(s, a) && dot_ok(s, a, d);
    let t = ascii_lower_of(s);
    assert forall|i: int| 0 <= i < t.len() && i != a implies #[trigger] t[i] != '@'
        && !is_space_char(t[i]) by {
        assert(s[i] != '@' && !is_space_char(s[i]));
    };
    assert(t[a] == '@');
    assert(t[d] == '.');
    assert(at_ok(t, a) && dot_ok(t, a, d));
}

/// Position `a` holds the one `@` of `s`, with a nonempty local part before
/// it and no whitespace or second `@` anywhere.
pub open spec fn at_ok(s: Seq<char>, a: int) -> bool {
    &&& 1 <= a < s.len()
    &&& s[a] == '@'
    &&& forall|i: int|
        0 <= i < s.len() && i != a ==> #[trigger] s[i] != '@' && !is_space_char(s[i])
    &&& !is_space_char(s[a])
}

/// Position `d` holds a dot that splits what follows the `@` at `a` into a
/// nonempty domain and a nonempty final label.
pub open spec fn dot_ok(s: Seq<char>, a: int, d: int) -> bool {
    &&& a + 2 <= d <= s.len() - 2
    &&& s[d] == '.'
}

/// The permissive `local@domain.tld` shape: no whitespace, exactly one `@`
/// with something before it, and a dot after the `@` with something on both
/// sides.
pub open spec fn valid_email(s: Seq<char>) -> bool {
    exists|a: int, d: int| at_ok(s, a) && dot_ok(s, a, d)
}

/// The most text a contact value may hold.
pub open spec fn max_contact_len() -> int {
    254
}

impl Clone for EmailAddress {
    fn clone(&self) -> (res: EmailAddress)
        ensures
            res == *self,
    {
        EmailAddress(self.0.clone())
    }
}

impl View for EmailAddress {
    type V = Seq<char>;

    closed spec fn view(&self) -> Seq<char> {
        self.0@
    }
}

impl EmailAddress {
    /// The invariant of every constructed value: the lower-cased form of
    /// some accepted input, itself already lower-cased, within the length
    /// bound and free of ASCII capitals.
    pub open spec fn wf(&self) -> bool {
        &&& exists|raw: Seq<char>|
            raw.len() <= max_contact_len() && valid_email(raw) && self@ == #[trigger] lower_of(
                raw,
            )
        &&& lower_of(self@) == self@
        &&& self@.len() <= max_contact_len()
        &&& has_no_ascii_upper(self@)
    }

    /// Validates raw input and stores its lower-cased form, whose length is
    /// checked again: lowercasing can lengthen text, and the stored form
    /// must stay within the bound. For ASCII input the stored form is
    /// pinned completely: the pointwise lowercase of the input, of the same
    /// length, still of the accepted shape and free of uppercase.
    pub fn new(email: String) -> (r: Result<EmailAddress, EmailError>)
        ensures
            r matches Err(e) ==> e == (if email@.len() > max_contact_len() {
                EmailError::TooLong
            } else if !valid_email(email@) {
                EmailError::InvalidFormat
            } else {
                EmailError::TooLong
            }),
            r is Ok <==> email@.len() <= max_contact_len() && valid_email(email@) && lower_of(
                email@,
            ).len() <= max_contact_len(),
            r matches Ok(v) ==> v@ == lower_of(email@) && v.wf(),
            r matches Ok(v) ==> (is_ascii_text(email@) ==> {
                &&& v@ == ascii_lower_of(email@)
                &&& v@.len() == email@.len() && v@.len() <= max_contact_len()
                &&& valid_email(v@)
                &&& has_no_ascii_upper(v@)
            }),
    {
        let n = email.as_str().unicode_len();
        if n > 254 {
            return Err(EmailError::TooLong);
        }
        if !is_valid_email(email.as_str()) {
            return Err(EmailError::InvalidFormat);
        }
        let stored = lowercase(email.as_str());
        if stored.as_str().unicode_len() > 254 {
            return Err(EmailError::TooLong);
        }
        proof {
            if is_ascii_text(email@) {
                lemma_ascii_lower_keeps_email_shape(email@);
                assert forall|i: int|
                    0 <= i < stored@.len() implies !is_ascii_upper_char(
                    #[trigger] stored@[i],
                ) by {
                    assert(stored@[i] == ascii_lower_char(email@[i]));
                };
            }
        }
        Ok(EmailAddress(stored))
    }

    /// The stored text.
    pub fn as_str(&self) -> (r: &str)
        ensures
            r@ == self@,
    {
        self.0.as_str()
    }
}

/// Whether `email` matches the accepted shape.
fn is_valid_email(email: &str) -> (r: bool)
    ensures
        r == valid_email(email@),
{
    let n = email.unicode_len();
    let mut at: usize = 0;
    let mut seen_at = false;
    let mut i: usize = 0;
    while i < n
        invariant
            n == email@.len(),
            0 <= i <= n,
            seen_at ==> 0 <= at < i && email@[at as int] == '@',
            forall|k: int|
                0 <= k < i ==> !is_space_char(#[trigger] email@[k]),
            forall|k: int|
                0 <= k < i && (!seen_at || k != at) ==> #[trigger] email@[k] != '@',
        decreases n - i,
    {
        let c = email.get_char(i);
        if is_space(c) {
            proof {
                assert forall|a: int| !at_ok(email@, a) by {
                    if at_ok(email@, a) {
                        assert(is_space_char(email@[i as int]));
                        if i as int != a {
                            assert(!is_space_char(email@[i as int]));
                        }
                    }
                };
                assert(!valid_email(email@));
            }
            return false;
        }
        if c == '@' {
            if seen_at {
                proof {
                    assert forall|a: int| !at_ok(email@, a) by {
                        if at_ok(email@, a) {
                            if a != at as int {
                                assert(email@[at as int] != '@');
                            }
                            if a != i as int {
                                assert(email@[i as int] != '@');
                            }
                        }
                    };
                    assert(!valid_email(email@));
                }
                return false;
            }
            seen_at = true;
            at = i;
        }
        i = i + 1;
    }
    if !seen_at {
        proof {
            assert forall|a: int| !at_ok(email@, a) by {
                if at_ok(email@, a) {
                    assert(email@[a] == '@');
                }
            };
            assert(!valid_email(email@));
        }
        return false;
    }
    if at < 1 {
        proof {
            assert forall|a: int| !at_ok(email@, a) by {
                if at_ok(email@, a) && a != at as int {
                    assert(email@[at as int] != '@');
                }
            };
            assert(!valid_email(email@));
        }
        return false;
    }
    proof {
        assert(at_ok(email@, at as int));
    }
    if n - at < 4 {
        // no room after the `@` for domain, dot and final label
        proof {
            assert forall|a: int, dd: int| !(at_ok(email@, a) && dot_ok(email@, a, dd)) by {
                if at_ok(email@, a) {
                    if a != at as int {
                        assert(email@[at as int] != '@');
                    }
                }
            };
            assert(!valid_email(email@));
        }
        return false;
    }
    // look for a dot with a nonempty domain before it and a nonempty label
    // after it
    let mut d = at + 2;
    while d <= n - 2
        invariant
            n == email@.len(),
            at_ok(email@, at as int),
            1 <= at,
            at + 4 <= n,
            at + 2 <= d <= n - 1,
            forall|k: int| at + 2 <= k < d ==> #[trigger] email@[k] != '.',
        decreases n - d,
    {
        if email.get_char(d) == '.' {
            proof {
                assert(at_ok(email@, at as int) && dot_ok(email@, at as int, d as int));
            }
            return true;
        }
        d = d + 1;
    }
    proof {
        assert forall|a: int, dd: int| !(at_ok(email@, a) && dot_ok(email@, a, dd)) by {
            if at_ok(email@, a) {
                if a != at as int {
                    assert(email@[at as int] != '@');
                }
                assert(a == at as int);
                if dot_ok(email@, a, dd) {
                    assert(email@[dd] != '.');
                }
            }
        };
        assert(!valid_email(email@));
    }
    false
}

} // verus!
