//! The creation instant of a record, in milliseconds since the Unix epoch.
use vstd::prelude::*;

use crate::time::{current_millis, format_rfc3339, rfc3339_of};

verus! {

/// When a record was created.
#[derive(Debug, Clone, Copy, PartialEq, Eq, Hash, Structural)]
pub struct CreatedAt(i64);

impl View for CreatedAt {
    type V = int;

    closed spec fn view(&self) -> int {
        self.0 as int
    }
}

impl CreatedAt {
    /// The current instant.
    pub fn now() -> CreatedAt {
        CreatedAt(current_millis())
    }

    /// The instant `millis` milliseconds after the Unix epoch.
    pub fn from_timestamp_millis(millis: i64) -> (r: CreatedAt)
        ensures
            r@ == millis as int,
    {
        CreatedAt(millis)
    }

    /// Whole seconds since the Unix epoch, rounded towards negative infinity.
    pub fn timestamp(&self) -> (r: i64)
        ensures
            r as int == self@ / 1000,
    {
        self.0.checked_div_euclid(1000).unwrap()
    }

    /// Milliseconds since the Unix epoch.
    pub fn timestamp_millis(&self) -> (r: i64)
        ensures
            r as int == self@,
    {
        self.0
    }

    /// The RFC 3339 rendering of this instant.
    pub fn to_rfc3339(&self) -> (r: String)
        ensures
            r@ == rfc3339_of(self@),
    {
        format_rfc3339(self.0)
    }
}

impl PartialOrd for CreatedAt {
    fn partial_cmp(&self, other: &CreatedAt) -> (r: Option<core::cmp::Ordering>) {
        if self.0 < other.0 {
            Some(core::cmp::Ordering::Less)
        } else if self.0 > other.0 {
            Some(core::cmp::Ordering::Greater)
        } else {
            Some(core::cmp::Ordering::Equal)
        }
    }
}

impl vstd::std_specs::cmp::PartialOrdSpecImpl for CreatedAt {
    open spec fn obeys_partial_cmp_spec() -> bool {
        true
    }

    open spec fn partial_cmp_spec(&self, other: &CreatedAt) -> Option<core::cmp::Ordering> {
        if self@ < other@ {
            Some(core::cmp::Ordering::Less)
        } else if self@ > other@ {
            Some(core::cmp::Ordering::Greater)
        } else {
            Some(core::cmp::Ordering::Equal)
        }
    }
}

} // verus!
