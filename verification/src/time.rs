//! Instants on the UTC time line.

use vstd::prelude::*;

verus! {

/// An instant on the UTC time line: whole seconds since 1970-01-01T00:00:00
/// and the nanoseconds past that second.
///
/// Two instants are ordered by their seconds first and by their nanoseconds
/// second.
#[derive(Clone, Copy, Debug, PartialEq, Eq, Structural)]
pub struct Timestamp {
    pub secs: i64,
    pub nanos: u32,
}

impl Timestamp {
    /// `self` lies strictly before `other`.
    pub open spec fn is_before(self, other: Timestamp) -> bool {
        self.secs < other.secs || (self.secs == other.secs && self.nanos < other.nanos)
    }

    /// `self` lies before `other` or is the same instant.
    pub open spec fn is_at_or_before(self, other: Timestamp) -> bool {
        self == other || self.is_before(other)
    }
}

/// Reads the system clock through `chrono::Utc::now`.
///
/// Nothing is claimed of the instant that comes back: two readings may be
/// equal, and a later reading may lie before an earlier one when the clock is
/// set back. The call panics when the system clock stands before 1970.
#[verifier::external_body]
pub(crate) fn current_time() -> Timestamp {
    let now = chrono::Utc::now();
    Timestamp { secs: now.timestamp(), nanos: now.timestamp_subsec_nanos() }
}

} // verus!
