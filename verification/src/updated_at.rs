//! The last-modification instant of a record, in milliseconds since the Unix epoch.
use vstd::prelude::*;

use crate::time::{current_millis, format_rfc3339, rfc3339_of};

verus! {

/// When a record was last changed.
#[derive(Debug, Clone, Copy, PartialEq, Eq, Hash, Structural)]
pub struct UpdatedAt(i64);

impl View for UpdatedAt {
    type V = int;

    closed spec fn view(&self) -> int {
        self.0 as int
    }
}

impl UpdatedAt {
    /// The current instant.
    pub fn now() -> UpdatedAt {
        UpdatedAt(current_millis())
    }

    /// The instant `millis` milliseconds after the Unix epoch.
    pub fn from_timestamp_millis(millis: i64) -> (r: UpdatedAt)
        ensures
            r@ == millis as int,
    {
        UpdatedAt(millis)
    }

    /// Whole seconds since the Unix epoch, rounded towards negative infinity.
    pub fn timestamp(&self) -> (r: i64)
        ensures
            r as int == self@ / 1000,
    {
        self.0.checked_div_euclid(1000).unwrap()
    }

    /// Milliseconds since the Unix epoch.
    pub fn timestamp_millis(&self) -> (r: i64)
        ensures
            r as int == self@,
    {
        self.0
    }

    /// The RFC 3339 rendering of this instant.
    pub fn to_rfc3339(&self) -> (r: String)
        ensures
            r@ == rfc3339_of(self@),
    {
        format_rfc3339(self.0)
    }
}

impl PartialOrd for UpdatedAt {
    fn partial_cmp(&self, other: &UpdatedAt) -> (r: Option<core::cmp::Ordering>) {
        if self.0 < other.0 {
            Some(core::cmp::Ordering::Less)
        } else if self.0 > other.0 {
            Some(core::cmp::Ordering::Greater)
        } else {
            Some(core::cmp::Ordering::Equal)
        }
    }
}

impl vstd::std_specs::cmp::PartialOrdSpecImpl for UpdatedAt {
    open spec fn obeys_partial_cmp_spec() -> bool {
        true
    }

    open spec fn partial_cmp_spec(&self, other: &UpdatedAt) -> Option<core::cmp::Ordering> {
        if self@ < other@ {
            Some(core::cmp::Ordering::Less)
        } else if self@ > other@ {
            Some(core::cmp::Ordering::Greater)
        } else {
            Some(core::cmp::Ordering::Equal)
        }
    }
}

} // verus!
