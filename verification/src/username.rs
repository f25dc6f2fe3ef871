//! The identity value: a human-chosen handle, trimmed on construction and
//! restricted to 3..=20 characters from the handle alphabet.
use vstd::prelude::*;
use vstd::string::*;

use crate::text::{is_handle, is_handle_char, is_space, is_space_char};

verus! {

/// Why a handle was rejected.
#[derive(Debug, Clone, Copy, PartialEq, Eq)]
pub enum UserNameError {
    TooShort,
    TooLong,
    InvalidCharacters,
}

/// A validated handle. The stored text is always the trimmed form.
#[derive(Debug, Eq, Hash)]
pub struct Username(String);

/// `s` without its leading whitespace.
pub open spec fn trim_left(s: Seq<char>) -> Seq<char>
    decreases s.len(),
{
    if s.len() > 0 && is_space_char(s[0]) {
        trim_left(s.subrange(1, s.len() as int))
    } else {
        s
    }
}

/// `s` without its trailing whitespace.
pub open spec fn trim_right(s: Seq<char>) -> Seq<char>
    decreases s.len(),
{
    if s.len() > 0 && is_space_char(s[s.len() - 1]) {
        trim_right(s.subrange(0, s.len() - 1))
    } else {
        s
    }
}

/// `s` without leading or trailing whitespace.
pub open spec fn trim_spec(s: Seq<char>) -> Seq<char> {
    trim_right(trim_left(s))
}

/// The text a constructed `Username` may hold.
pub open spec fn handle_text_ok(t: Seq<char>) -> bool {
    &&& 3 <= t.len() <= 20
    &&& forall|i: int| 0 <= i < t.len() ==> is_handle_char(#[trigger] t[i])
}

/// Whether raw input is accepted, after trimming.
pub open spec fn username_valid(s: Seq<char>) -> bool {
    handle_text_ok(trim_spec(s))
}

/// The error reported for rejected input: length bounds are checked on the
/// trimmed text before its characters.
pub open spec fn username_err(s: Seq<char>) -> UserNameError {
    let t = trim_spec(s);
    if t.len() < 3 {
        UserNameError::TooShort
    } else if t.len() > 20 {
        UserNameError::TooLong
    } else {
        UserNameError::InvalidCharacters
    }
}

proof fn lemma_trim_left_head(s: Seq<char>)
    ensures
        trim_left(s).len() <= s.len(),
        trim_left(s).len() > 0 ==> !is_space_char(trim_left(s)[0]),
    decreases s.len(),
{
    if s.len() > 0 && is_space_char(s[0]) {
        lemma_trim_left_head(s.subrange(1, s.len() as int));
    }
}

proof fn lemma_trim_right_prefix(s: Seq<char>)
    ensures
        trim_right(s).len() <= s.len(),
        forall|i: int| 0 <= i < trim_right(s).len() ==> #[trigger] trim_right(s)[i] == s[i],
        trim_right(s).len() > 0 ==> !is_space_char(trim_right(s)[trim_right(s).len() - 1]),
    decreases s.len(),
{
    if s.len() > 0 && is_space_char(s[s.len() - 1]) {
        lemma_trim_right_prefix(s.subrange(0, s.len() - 1));
    }
}

/// Trimming is idempotent: the trimmed form is its own trimmed form, so no
/// leading or trailing whitespace ever survives construction.
pub proof fn lemma_trim_idempotent(s: Seq<char>)
    ensures
        trim_spec(trim_spec(s)) == trim_spec(s),
{
    let u = trim_left(s);
    let t = trim_right(u);
    lemma_trim_left_head(s);
    lemma_trim_right_prefix(u);
    if t.len() > 0 {
        assert(t[0] == u[0]);
        assert(trim_left(t) == t);
        assert(trim_right(t) == t);
    } else {
        assert(t =~= Seq::<char>::empty());
    }
}

impl View for Username {
    type V = Seq<char>;

    closed spec fn view(&self) -> Seq<char> {
        self.0@
    }
}

impl Clone for Username {
    fn clone(&self) -> (res: Username)
        ensures
            res == *self,
    {
        Username(self.0.clone())
    }
}

impl PartialEq for Username {
    fn eq(&self, other: &Username) -> (r: bool) {
        self.0 == other.0
    }
}

impl vstd::std_specs::cmp::PartialEqSpecImpl for Username {
    open spec fn obeys_eq_spec() -> bool {
        true
    }

    open spec fn eq_spec(&self, other: &Username) -> bool {
        self@ == other@
    }
}

impl Username {
    /// The invariant of every constructed value: acceptable text that is its
    /// own trimmed form.
    pub open spec fn wf(&self) -> bool {
        handle_text_ok(self@) && trim_spec(self@) == self@
    }

    /// Validates and normalizes raw input into a handle.
    pub fn new(name: &str) -> (r: Result<Username, UserNameError>)
        ensures
            r is Ok <==> username_valid(name@),
            r matches Ok(u) ==> u@ == trim_spec(name@) && u.wf(),
            r matches Err(e) ==> e == username_err(name@),
    {
        let n = name.unicode_len();
        proof {
            assert(name@.subrange(0, n as int) =~= name@);
        }
        let mut start: usize = 0;
        while start < n && is_space(name.get_char(start))
            invariant
                n == name@.len(),
                0 <= start <= n,
                trim_left(name@) == trim_left(name@.subrange(start as int, n as int)),
            decreases n - start,
        {
            proof {
                let sub = name@.subrange(start as int, n as int);
                assert(sub.subrange(1, sub.len() as int) =~= name@.subrange(
                    start + 1,
                    n as int,
                ));
            }
            start = start + 1;
        }
        proof {
            let sub = name@.subrange(start as int, n as int);
            if start < n {
                assert(sub[0] == name@[start as int]);
            }
            assert(trim_left(name@) == sub);
        }
        let mut end: usize = n;
        while end > start && is_space(name.get_char(end - 1))
            invariant
                n == name@.len(),
                0 <= start <= end <= n,
                trim_left(name@) == name@.subrange(start as int, n as int),
                trim_right(name@.subrange(start as int, n as int)) == trim_right(
                    name@.subrange(start as int, end as int),
                ),
            decreases end,
        {
            proof {
                let sub = name@.subrange(start as int, end as int);
                assert(sub[sub.len() - 1] == name@[end - 1]);
                assert(sub.subrange(0, sub.len() - 1) =~= name@.subrange(
                    start as int,
                    end - 1,
                ));
            }
            end = end - 1;
        }
        proof {
            let sub = name@.subrange(start as int, end as int);
            if end > start {
                assert(sub[sub.len() - 1] == name@[end - 1]);
            }
            assert(trim_spec(name@) == sub);
        }
        let tlen = end - start;
        if tlen < 3 {
            return Err(UserNameError::TooShort);
        }
        if tlen > 20 {
            return Err(UserNameError::TooLong);
        }
        let mut i = start;
        while i < end
            invariant
                n == name@.len(),
                0 <= start <= i <= end <= n,
                3 <= end - start <= 20,
                trim_spec(name@) == name@.subrange(start as int, end as int),
                forall|k: int|
                    start <= k < i ==> is_handle_char(#[trigger] name@[k]),
            decreases end - i,
        {
            if !is_handle(name.get_char(i)) {
                proof {
                    let t = trim_spec(name@);
                    assert(t.len() == end - start);
                    assert(t[i - start as int] == name@[i as int]);
                    assert(!handle_text_ok(t));
                }
                return Err(UserNameError::InvalidCharacters);
            }
            i = i + 1;
        }
        let stored = name.substring_char(start, end).to_owned();
        proof {
            let t = trim_spec(name@);
            assert forall|k: int| 0 <= k < t.len() implies is_handle_char(#[trigger] t[k]) by {
                assert(t[k] == name@[k + start as int]);
            };
            lemma_trim_idempotent(name@);
        }
        Ok(Username(stored))
    }

    /// The stored text.
    pub fn as_str(&self) -> (r: &str)
        ensures
            r@ == self@,
    {
        self.0.as_str()
    }
}

} // verus!
