//! The account identifier: an opaque 128-bit value whose top 48 bits embed a
//! millisecond timestamp, so identifiers created later sort after earlier
//! ones. Canonical text form: hyphenated lowercase hexadecimal.
use vstd::prelude::*;
use vstd::string::*;

verus! {

/// Why identifier text was rejected.
#[derive(Debug, Clone, Copy, PartialEq, Eq)]
pub enum UserIdError {
    MalformedIdentifier,
}

/// A 128-bit, time-ordered account identifier, split into its high and low
/// halves.
#[derive(Debug, Clone, Copy, PartialEq, Eq, Ord, Hash, Structural)]
pub struct UserId {
    pub hi: u64,
    pub lo: u64,
}

/// Nibble `i` of `x`, counting from the most significant.
pub open spec fn nib64(x: u64, i: int) -> u64
    recommends
        0 <= i < 16,
{
    (x >> (((15 - i) * 4) as u64)) & 0xf
}

/// Nibble `i` of the 128-bit value, counting from the most significant.
pub open spec fn nib128(id: UserId, i: int) -> u64
    recommends
        0 <= i < 32,
{
    if i < 16 {
        nib64(id.hi, i)
    } else {
        nib64(id.lo, i - 16)
    }
}

/// The lowercase hex digit for a nibble value.
pub open spec fn hex_char_of(v: int) -> char {
    if v == 0 {
        '0'
    } else if v == 1 {
        '1'
    } else if v == 2 {
        '2'
    } else if v == 3 {
        '3'
    } else if v == 4 {
        '4'
    } else if v == 5 {
        '5'
    } else if v == 6 {
        '6'
    } else if v == 7 {
        '7'
    } else if v == 8 {
        '8'
    } else if v == 9 {
        '9'
    } else if v == 10 {
        'a'
    } else if v == 11 {
        'b'
    } else if v == 12 {
        'c'
    } else if v == 13 {
        'd'
    } else if v == 14 {
        'e'
    } else {
        'f'
    }
}

/// Hex digits, either case.
pub open spec fn is_hex_digit(c: char) -> bool {
    (48 <= c as u32 && c as u32 <= 57) || (97 <= c as u32 && c as u32 <= 102) || (65 <= c as u32
        && c as u32 <= 70)
}

/// The value of a hex digit.
pub open spec fn hex_val_of(c: char) -> int {
    let v = c as u32;
    if 48 <= v && v <= 57 {
        v - 48
    } else if 97 <= v && v <= 102 {
        v - 87
    } else if 65 <= v && v <= 70 {
        v - 55
    } else {
        0
    }
}

/// The 32 hex digits of the identifier, most significant first.
pub open spec fn hex32_of(id: UserId) -> Seq<char> {
    Seq::new(32, |i: int| hex_char_of(nib128(id, i) as int))
}

/// Where digit `j` of the 32 sits inside the 36-character hyphenated form.
pub open spec fn spread(j: int) -> int {
    if j < 8 {
        j
    } else if j < 12 {
        j + 1
    } else if j < 16 {
        j + 2
    } else if j < 20 {
        j + 3
    } else {
        j + 4
    }
}

/// The canonical hyphenated lowercase form, groups of 8-4-4-4-12 digits.
pub open spec fn canonical_of(id: UserId) -> Seq<char> {
    Seq::new(
        36,
        |i: int|
            if i == 8 || i == 13 || i == 18 || i == 23 {
                '-'
            } else {
                hex32_of(id)[unspread(i)]
            },
    )
}

/// The digit index for a non-hyphen position of the hyphenated form.
pub open spec fn unspread(i: int) -> int {
    if i < 8 {
        i
    } else if i < 13 {
        i - 1
    } else if i < 18 {
        i - 2
    } else if i < 23 {
        i - 3
    } else {
        i - 4
    }
}

/// Hyphenated identifier text: 36 characters, hyphens at 8, 13, 18 and 23,
/// hex digits of either case elsewhere.
pub open spec fn valid_hyphenated(s: Seq<char>) -> bool {
    &&& s.len() == 36
    &&& s[8] == '-' && s[13] == '-' && s[18] == '-' && s[23] == '-'
    &&& forall|i: int|
        0 <= i < 36 && i != 8 && i != 13 && i != 18 && i != 23 ==> is_hex_digit(#[trigger] s[i])
}

/// Simple identifier text: 32 hex digits of either case.
pub open spec fn valid_simple(s: Seq<char>) -> bool {
    s.len() == 32 && forall|i: int| 0 <= i < 32 ==> is_hex_digit(#[trigger] s[i])
}

/// Braced identifier text: the hyphenated form between `{` and `}`.
pub open spec fn valid_braced(s: Seq<char>) -> bool {
    s.len() == 38 && s[0] == '{' && s[37] == '}' && valid_hyphenated(s.subrange(1, 37))
}

/// The `urn:uuid:` prefix, its letters in either case.
pub open spec fn urn_prefix_ok(s: Seq<char>) -> bool {
    &&& s.len() >= 9
    &&& (s[0] == 'u' || s[0] == 'U') && (s[1] == 'r' || s[1] == 'R') && (s[2] == 'n' || s[2]
        == 'N') && s[3] == ':'
    &&& (s[4] == 'u' || s[4] == 'U') && (s[5] == 'u' || s[5] == 'U') && (s[6] == 'i' || s[6]
        == 'I') && (s[7] == 'd' || s[7] == 'D') && s[8] == ':'
}

/// Urn identifier text: the hyphenated form behind `urn:uuid:`.
pub open spec fn valid_urn(s: Seq<char>) -> bool {
    s.len() == 45 && urn_prefix_ok(s) && valid_hyphenated(s.subrange(9, 45))
}

/// Any accepted identifier text: hyphenated, simple, braced or urn.
pub open spec fn valid_identifier_text(s: Seq<char>) -> bool {
    valid_hyphenated(s) || valid_simple(s) || valid_braced(s) || valid_urn(s)
}

/// Where the hyphenated body starts in each accepted form.
pub open spec fn body_offset(s: Seq<char>) -> int {
    if s.len() == 38 {
        1
    } else if s.len() == 45 {
        9
    } else {
        0
    }
}

/// The 32 digits of a valid text: delimiters and hyphens removed.
pub open spec fn digits_of(s: Seq<char>) -> Seq<char> {
    if s.len() == 32 {
        s
    } else {
        Seq::new(32, |j: int| s[body_offset(s) + spread(j)])
    }
}

/// The value of the first `n` digits at `base`, as a big-endian hex number.
pub open spec fn fold_hex(d: Seq<char>, base: int, n: int) -> int
    decreases n,
{
    if n <= 0 {
        0
    } else {
        fold_hex(d, base, n - 1) * 16 + hex_val_of(d[base + n - 1])
    }
}

/// 16 to the `n`.
pub open spec fn pow16(n: int) -> int
    decreases n,
{
    if n <= 0 {
        1
    } else {
        16 * pow16(n - 1)
    }
}

/// The identifier a digit sequence denotes.
pub open spec fn value_of_digits(d: Seq<char>) -> UserId {
    UserId { hi: fold_hex(d, 0, 16) as u64, lo: fold_hex(d, 16, 16) as u64 }
}

/// The version-7 bit pattern every generated identifier carries.
pub open spec fn is_version7(id: UserId) -> bool {
    (id.hi >> 12) & 0xf == 7 && (id.lo >> 62) == 2
}

/// The millisecond timestamp embedded in the top 48 bits.
pub open spec fn timestamp_ms_of(id: UserId) -> u64 {
    id.hi >> 16
}

/// Strict order on identifiers: the 128-bit value, high half first.
pub open spec fn id_lt(a: UserId, b: UserId) -> bool {
    a.hi < b.hi || (a.hi == b.hi && a.lo < b.lo)
}

proof fn lemma_fold_hex_bound(d: Seq<char>, base: int, n: int)
    requires
        0 <= n,
    ensures
        0 <= fold_hex(d, base, n) < pow16(n),
    decreases n,
{
    if n > 0 {
        lemma_fold_hex_bound(d, base, n - 1);
    }
}

proof fn lemma_pow16_mono(a: int, b: int)
    requires
        0 <= a <= b,
    ensures
        pow16(a) <= pow16(b),
    decreases b,
{
    if a < b {
        lemma_pow16_mono(a, b - 1);
        lemma_pow16_pos(b - 1);
    }
}

proof fn lemma_pow16_val()
    ensures
        pow16(15) == 0x1000000000000000,
        pow16(16) == 0x10000000000000000,
{
    reveal_with_fuel(pow16, 17);
}

proof fn lemma_nibble_bound(x: u64, s: u64)
    by (bit_vector)
    ensures
        (x >> s) & 0xf < 16,
{
}

proof fn lemma_pow16_pos(n: int)
    ensures
        pow16(n) >= 1,
    decreases n,
{
    if n > 0 {
        lemma_pow16_pos(n - 1);
    }
}

proof fn lemma_pow16_pow2(n: nat)
    ensures
        pow16(n as int) == vstd::arithmetic::power2::pow2(4 * n),
    decreases n,
{
    vstd::arithmetic::power2::lemma2_to64();
    if n > 0 {
        lemma_pow16_pow2((n - 1) as nat);
        vstd::arithmetic::power2::lemma_pow2_adds(4 * ((n - 1) as nat), 4);
        assert(4 * ((n - 1) as nat) + 4 == 4 * n);
    }
}

proof fn lemma_hex_char_val(v: int)
    requires
        0 <= v < 16,
    ensures
        is_hex_digit(hex_char_of(v)),
        hex_val_of(hex_char_of(v)) == v,
{
}

/// The value of the 16 digit characters of `x` starting at `base` in `d`:
/// reading the first `n` of them gives the top `4 * n` bits of `x`.
proof fn lemma_hex_digits_value(x: u64, d: Seq<char>, base: int, n: int)
    requires
        0 <= base,
        0 <= n <= 16,
        base + 16 <= d.len(),
        forall|k: int| 0 <= k < 16 ==> d[base + k] == hex_char_of(nib64(x, k) as int),
    ensures
        fold_hex(d, base, n) == x as int / pow16(16 - n),
    decreases n,
{
    lemma_pow16_val();
    if n == 0 {
        assert(x as int / pow16(16) == 0) by {
            vstd::arithmetic::div_mod::lemma_basic_div_specific_divisor(pow16(16));
        };
    } else {
        lemma_hex_digits_value(x, d, base, n - 1);
        let s: u64 = ((16 - n) * 4) as u64;
        let nib = nib64(x, n - 1);
        assert(nib == (x >> s) & 0xf);
        lemma_nibble_bound(x, s);
        lemma_hex_char_val(nib as int);
        assert(hex_val_of(d[base + n - 1]) == nib as int);
        vstd::bits::lemma_u64_shr_is_div(x, s);
        vstd::bits::lemma_u64_low_bits_mask_is_mod(x >> s, 4);
        vstd::bits::lemma_low_bits_mask_values();
        vstd::arithmetic::power2::lemma2_to64();
        lemma_pow16_pow2((16 - n) as nat);
        lemma_pow16_pow2((17 - n) as nat);
        assert(pow16(16 - n) == vstd::arithmetic::power2::pow2((s as nat)));
        let p = pow16(16 - n);
        let q = x as int / p;
        assert((x >> s) == q);
        assert(nib == q % 16);
        vstd::arithmetic::power2::lemma_pow2_adds((4 * (16 - n)) as nat, 4);
        assert(pow16(17 - n) == p * 16);
        lemma_pow16_pos(16 - n);
        vstd::arithmetic::div_mod::lemma_div_denominator(x as int, p, 16);
        assert(x as int / pow16(17 - n) == q / 16);
        vstd::arithmetic::div_mod::lemma_fundamental_div_mod(q, 16);
        assert(fold_hex(d, base, n) == fold_hex(d, base, n - 1) * 16 + hex_val_of(
            d[base + n - 1],
        ));
        assert(fold_hex(d, base, n) == (q / 16) * 16 + q % 16);
    }
}

/// The canonical text of an identifier is valid and parses back to the very
/// same identifier.
pub proof fn lemma_canonical_round_trip(id: UserId)
    ensures
        valid_hyphenated(canonical_of(id)),
        value_of_digits(digits_of(canonical_of(id))) == id,
{
    let c = canonical_of(id);
    let h = hex32_of(id);
    assert forall|j: int| 0 <= j < 32 implies is_hex_digit(#[trigger] h[j]) by {
        if j < 16 {
            lemma_nibble_bound(id.hi, ((15 - j) * 4) as u64);
        } else {
            lemma_nibble_bound(id.lo, ((15 - (j - 16)) * 4) as u64);
        }
        lemma_hex_char_val(nib128(id, j) as int);
    };
    assert forall|i: int|
        0 <= i < 36 && i != 8 && i != 13 && i != 18 && i != 23 implies is_hex_digit(
        #[trigger] c[i],
    ) by {
        assert(c[i] == h[unspread(i)]);
    };
    assert(valid_hyphenated(c));
    let d = digits_of(c);
    assert forall|j: int| 0 <= j < 32 implies d[j] == h[j] by {
        assert(d[j] == c[spread(j)]);
        assert(unspread(spread(j)) == j);
    };
    assert(d =~= h);
    assert forall|k: int| 0 <= k < 16 implies h[0 + k] == hex_char_of(
        nib64(id.hi, k) as int,
    ) by {
        assert(nib128(id, k) == nib64(id.hi, k));
    };
    assert forall|k: int| 0 <= k < 16 implies h[16 + k] == hex_char_of(
        nib64(id.lo, k) as int,
    ) by {
        assert(nib128(id, 16 + k) == nib64(id.lo, k));
    };
    lemma_hex_digits_value(id.hi, h, 0, 16);
    lemma_hex_digits_value(id.lo, h, 16, 16);
    lemma_pow16_val();
    assert(fold_hex(h, 0, 16) == id.hi as int / 1);
    assert(fold_hex(h, 16, 16) == id.lo as int / 1);
}

/// An identifier stamped with a later creation time sorts strictly after one
/// stamped earlier, under the identifier's own ordering.
pub proof fn lemma_newer_sorts_after(a: UserId, b: UserId)
    requires
        timestamp_ms_of(a) < timestamp_ms_of(b),
    ensures
        id_lt(a, b),
{
    let x = a.hi;
    let y = b.hi;
    assert(x < y) by (bit_vector)
        requires
            x >> 16 < y >> 16,
    ;
}

impl PartialOrd for UserId {
    fn partial_cmp(&self, other: &UserId) -> (r: Option<core::cmp::Ordering>) {
        if self.hi < other.hi {
            Some(core::cmp::Ordering::Less)
        } else if self.hi > other.hi {
            Some(core::cmp::Ordering::Greater)
        } else if self.lo < other.lo {
            Some(core::cmp::Ordering::Less)
        } else if self.lo > other.lo {
            Some(core::cmp::Ordering::Greater)
        } else {
            Some(core::cmp::Ordering::Equal)
        }
    }
}

impl vstd::std_specs::cmp::PartialOrdSpecImpl for UserId {
    open spec fn obeys_partial_cmp_spec() -> bool {
        true
    }

    open spec fn partial_cmp_spec(&self, other: &UserId) -> Option<core::cmp::Ordering> {
        if id_lt(*self, *other) {
            Some(core::cmp::Ordering::Less)
        } else if id_lt(*other, *self) {
            Some(core::cmp::Ordering::Greater)
        } else {
            Some(core::cmp::Ordering::Equal)
        }
    }
}

impl Default for UserId {
    /// A fresh identifier, as `new` gives.
    fn default() -> (r: UserId)
        ensures
            is_version7(r),
    {
        UserId::new()
    }
}

impl core::str::FromStr for UserId {
    type Err = UserIdError;

    fn from_str(s: &str) -> Result<UserId, UserIdError> {
        UserId::from_string(s)
    }
}

impl UserId {
    /// Creates a fresh time-ordered identifier.
    ///
    /// Relies on uuid's `Uuid::new_v7` with the current wall-clock timestamp:
    /// the result carries the version-7 and RFC-variant bits, its top 48 bits
    /// are the creation time in milliseconds, and the rest is random.
    #[verifier::external_body]
    pub fn new() -> (r: UserId)
        ensures
            is_version7(r),
    {
        let ts = uuid::Timestamp::now(uuid::NoContext);
        let x = uuid::Uuid::new_v7(ts).as_u128();
        UserId { hi: (x >> 64) as u64, lo: x as u64 }
    }

    /// Parses identifier text: the hyphenated, simple, braced or urn form,
    /// hex digits of either case.
    pub fn from_string(s: &str) -> (r: Result<UserId, UserIdError>)
        ensures
            r is Ok <==> valid_identifier_text(s@),
            r matches Ok(id) ==> id == value_of_digits(digits_of(s@)),
            r matches Err(e) ==> e == UserIdError::MalformedIdentifier,
    {
        let n = s.unicode_len();
        let off: usize;
        if n == 32 || n == 36 {
            off = 0;
        } else if n == 38 {
            if !(s.get_char(0) == '{' && s.get_char(37) == '}') {
                return Err(UserIdError::MalformedIdentifier);
            }
            off = 1;
        } else if n == 45 {
            let c0 = s.get_char(0);
            let c1 = s.get_char(1);
            let c2 = s.get_char(2);
            let c4 = s.get_char(4);
            let c5 = s.get_char(5);
            let c6 = s.get_char(6);
            let c7 = s.get_char(7);
            if !((c0 == 'u' || c0 == 'U') && (c1 == 'r' || c1 == 'R') && (c2 == 'n' || c2 == 'N')
                && s.get_char(3) == ':' && (c4 == 'u' || c4 == 'U') && (c5 == 'u' || c5 == 'U')
                && (c6 == 'i' || c6 == 'I') && (c7 == 'd' || c7 == 'D') && s.get_char(8) == ':') {
                return Err(UserIdError::MalformedIdentifier);
            }
            off = 9;
        } else {
            return Err(UserIdError::MalformedIdentifier);
        }
        if n != 32 {
            if !(s.get_char(off + 8) == '-' && s.get_char(off + 13) == '-' && s.get_char(off + 18)
                == '-' && s.get_char(off + 23) == '-') {
                proof {
                    if n == 38 && valid_braced(s@) {
                        let b = s@.subrange(1, 37);
                        assert(b[8] == s@[9] && b[13] == s@[14] && b[18] == s@[19] && b[23]
                            == s@[24]);
                    }
                    if n == 45 && valid_urn(s@) {
                        let b = s@.subrange(9, 45);
                        assert(b[8] == s@[17] && b[13] == s@[22] && b[18] == s@[27] && b[23]
                            == s@[32]);
                    }
                    assert(!valid_identifier_text(s@));
                }
                return Err(UserIdError::MalformedIdentifier);
            }
        }
        let ghost d = digits_of(s@);
        let mut hi: u64 = 0;
        let mut lo: u64 = 0;
        let mut j: usize = 0;
        while j < 32
            invariant
                n == s@.len(),
                0 <= j <= 32,
                n == 32 || n == 36 || n == 38 || n == 45,
                off == body_offset(s@),
                n == 32 ==> off == 0,
                n != 32 ==> s@[off + 8] == '-' && s@[off + 13] == '-' && s@[off + 18] == '-'
                    && s@[off + 23] == '-',
                n == 38 ==> s@[0] == '{' && s@[37] == '}',
                n == 45 ==> urn_prefix_ok(s@),
                d == digits_of(s@),
                forall|k: int| 0 <= k < j ==> is_hex_digit(#[trigger] d[k]),
                j <= 16 ==> hi == fold_hex(d, 0, j as int) && lo == 0,
                j > 16 ==> hi == fold_hex(d, 0, 16) && lo == fold_hex(d, 16, j - 16),
            decreases 32 - j,
        {
            let sp: usize = if j < 8 {
                j
            } else if j < 12 {
                j + 1
            } else if j < 16 {
                j + 2
            } else if j < 20 {
                j + 3
            } else {
                j + 4
            };
            let pos: usize = if n == 32 {
                j
            } else {
                off + sp
            };
            proof {
                assert(sp == spread(j as int));
                assert(d[j as int] == s@[pos as int]);
            }
            let c = s.get_char(pos);
            let v32 = c as u32;
            let v: u64 = if 48 <= v32 && v32 <= 57 {
                (v32 - 48) as u64
            } else if 97 <= v32 && v32 <= 102 {
                (v32 - 87) as u64
            } else if 65 <= v32 && v32 <= 70 {
                (v32 - 55) as u64
            } else {
                proof {
                    if n == 36 && valid_hyphenated(s@) {
                        assert(is_hex_digit(s@[spread(j as int)]));
                    }
                    if n == 38 && valid_braced(s@) {
                        let b = s@.subrange(1, 37);
                        assert(b[spread(j as int)] == s@[1 + spread(j as int)]);
                        assert(is_hex_digit(b[spread(j as int)]));
                    }
                    if n == 45 && valid_urn(s@) {
                        let b = s@.subrange(9, 45);
                        assert(b[spread(j as int)] == s@[9 + spread(j as int)]);
                        assert(is_hex_digit(b[spread(j as int)]));
                    }
                    assert(!valid_identifier_text(s@));
                }
                return Err(UserIdError::MalformedIdentifier);
            };
            proof {
                assert(is_hex_digit(d[j as int]));
                assert(v == hex_val_of(d[j as int]));
                lemma_fold_hex_bound(d, 0, if j < 16 { j as int } else { 16 });
                lemma_fold_hex_bound(d, 16, if j < 16 { 0 } else { j - 16 });
                lemma_pow16_mono(if j < 16 { j as int } else { j - 16 }, 15);
                lemma_pow16_val();
            }
            if j < 16 {
                hi = hi * 16 + v;
            } else {
                lo = lo * 16 + v;
            }
            j = j + 1;
        }
        proof {
            if n == 32 {
                assert(d =~= s@);
                assert(valid_simple(s@));
            } else {
                let b = s@.subrange(off as int, off + 36);
                assert forall|i: int|
                    0 <= i < 36 && i != 8 && i != 13 && i != 18 && i != 23 implies is_hex_digit(
                    #[trigger] b[i],
                ) by {
                    assert(spread(unspread(i)) == i);
                    assert(b[i] == s@[off + i]);
                    assert(d[unspread(i)] == s@[off + spread(unspread(i))]);
                };
                assert(b[8] == '-' && b[13] == '-' && b[18] == '-' && b[23] == '-');
                assert(valid_hyphenated(b));
                if n == 36 {
                    assert(b =~= s@);
                    assert(valid_hyphenated(s@));
                } else if n == 38 {
                    assert(s@.subrange(1, 37) =~= b);
                    assert(valid_braced(s@));
                } else {
                    assert(s@.subrange(9, 45) =~= b);
                    assert(valid_urn(s@));
                }
            }
            lemma_fold_hex_bound(d, 0, 16);
            lemma_fold_hex_bound(d, 16, 16);
            lemma_pow16_val();
        }
        Ok(UserId { hi, lo })
    }

    /// The canonical hyphenated lowercase text.
    pub fn to_hyphenated(&self) -> (r: String)
        ensures
            r@ == canonical_of(*self),
    {
        let mut out: Vec<char> = Vec::new();
        let mut i: usize = 0;
        while i < 36
            invariant
                0 <= i <= 36,
                out@.len() == i,
                forall|k: int| 0 <= k < i ==> out@[k] == canonical_of(*self)[k],
            decreases 36 - i,
        {
            if i == 8 || i == 13 || i == 18 || i == 23 {
                out.push('-');
            } else {
                let j: usize = if i < 8 {
                    i
                } else if i < 13 {
                    i - 1
                } else if i < 18 {
                    i - 2
                } else {
                    if i < 23 {
                        i - 3
                    } else {
                        i - 4
                    }
                };
                let nib: u64 = if j < 16 {
                    (self.hi >> ((15 - j) as u64 * 4)) & 0xf
                } else {
                    (self.lo >> ((31 - j) as u64 * 4)) & 0xf
                };
                proof {
                    if j < 16 {
                        assert((15 - j) as u64 * 4 == ((15 - j as int) * 4) as u64);
                        lemma_nibble_bound(self.hi, ((15 - j as int) * 4) as u64);
                    } else {
                        assert((31 - j) as u64 * 4 == ((15 - (j - 16)) * 4) as u64);
                        lemma_nibble_bound(self.lo, ((31 - j as int) * 4) as u64);
                    }
                    assert(nib == nib128(*self, j as int));
                }
                let c = hex_char(nib);
                out.push(c);
            }
            i = i + 1;
        }
        chars_to_string(&out)
    }

    /// The canonical text; same as the hyphenated form.
    pub fn as_str(&self) -> (r: String)
        ensures
            r@ == canonical_of(*self),
    {
        self.to_hyphenated()
    }

    /// The 32 hex digits without hyphens.
    pub fn to_simple(&self) -> (r: String)
        ensures
            r@ == hex32_of(*self),
    {
        let mut out: Vec<char> = Vec::new();
        let mut j: usize = 0;
        while j < 32
            invariant
                0 <= j <= 32,
                out@.len() == j,
                forall|k: int| 0 <= k < j ==> out@[k] == hex32_of(*self)[k],
            decreases 32 - j,
        {
            let nib: u64 = if j < 16 {
                (self.hi >> ((15 - j) as u64 * 4)) & 0xf
            } else {
                (self.lo >> ((31 - j) as u64 * 4)) & 0xf
            };
            proof {
                if j < 16 {
                    assert((15 - j) as u64 * 4 == ((15 - j as int) * 4) as u64);
                    lemma_nibble_bound(self.hi, ((15 - j as int) * 4) as u64);
                } else {
                    assert((31 - j) as u64 * 4 == ((15 - (j - 16)) * 4) as u64);
                    lemma_nibble_bound(self.lo, ((31 - j as int) * 4) as u64);
                }
                assert(nib == nib128(*self, j as int));
            }
            let c = hex_char(nib);
            out.push(c);
            j = j + 1;
        }
        chars_to_string(&out)
    }
}

/// The lowercase hex digit for a nibble.
fn hex_char(v: u64) -> (c: char)
    requires
        v < 16,
    ensures
        c == hex_char_of(v as int),
{
    if v == 0 {
        '0'
    } else if v == 1 {
        '1'
    } else if v == 2 {
        '2'
    } else if v == 3 {
        '3'
    } else if v == 4 {
        '4'
    } else if v == 5 {
        '5'
    } else if v == 6 {
        '6'
    } else if v == 7 {
        '7'
    } else if v == 8 {
        '8'
    } else if v == 9 {
        '9'
    } else if v == 10 {
        'a'
    } else if v == 11 {
        'b'
    } else if v == 12 {
        'c'
    } else if v == 13 {
        'd'
    } else if v == 14 {
        'e'
    } else {
        'f'
    }
}

/// Relies on String's FromIterator over char: collecting yields exactly the
/// characters of the vector, in order.
#[verifier::external_body]
fn chars_to_string(v: &Vec<char>) -> (r: String)
    ensures
        r@ == v@,
{
    v.iter().collect()
}

} // verus!
