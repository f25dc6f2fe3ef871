//! The clock boundary: reading the current time and rendering a timestamp,
//! both through chrono.
use vstd::prelude::*;

verus! {

/// The RFC 3339 text chrono renders for a millisecond timestamp (empty for a
/// timestamp outside chrono's representable range).
pub uninterp spec fn rfc3339_of(ms: int) -> Seq<char>;

/// Relies on chrono's `Utc::now`: the current wall-clock time in
/// milliseconds since the Unix epoch. Nothing is assumed of the value.
#[verifier::external_body]
pub(crate) fn current_millis() -> i64 {
    chrono::Utc::now().timestamp_millis()
}

/// Relies on chrono's `DateTime::from_timestamp_millis` and `to_rfc3339`:
/// the rendered text is determined by the millisecond value alone;
/// out-of-range values, which chrono refuses, render as the empty string.
#[verifier::external_body]
pub(crate) fn format_rfc3339(ms: i64) -> (r: String)
    ensures
        r@ == rfc3339_of(ms as int),
{
    match chrono::DateTime::from_timestamp_millis(ms) {
        Some(d) => d.to_rfc3339(),
        None => String::new(),
    }
}

} // verus!
