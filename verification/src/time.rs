//! Instants on the wall clock, as plain integers.

use vstd::prelude::*;

verus! {

/// Nanoseconds in one second.
pub const NANOS_PER_SEC: i128 = 1_000_000_000;

/// An instant: whole seconds since the Unix epoch and the nanoseconds past
/// that second.
///
/// Nothing is demanded of `nanos`: a value of a second or more stands for the
/// instant that many nanoseconds after `secs`, so every pair is some instant.
#[derive(Clone, Copy, Debug, PartialEq, Eq, Structural)]
pub struct Timestamp {
    pub secs: i64,
    pub nanos: u32,
}

impl Timestamp {
    /// The instant as nanoseconds since the epoch.
    pub open spec fn as_nanos(self) -> int {
        self.secs * NANOS_PER_SEC + self.nanos
    }

    /// The instant `nanos` nanoseconds after the second `secs`.
    pub fn new(secs: i64, nanos: u32) -> (t: Timestamp)
        ensures
            t.secs == secs,
            t.nanos == nanos,
    {
        Timestamp { secs, nanos }
    }

    /// Nanoseconds from `earlier` to `self`; negative when `self` comes first.
    pub fn nanos_since(&self, earlier: &Timestamp) -> (elapsed: i128)
        ensures
            elapsed == self.as_nanos() - earlier.as_nanos(),
    {
        let whole: i128 = self.secs as i128 - earlier.secs as i128;
        let part: i128 = self.nanos as i128 - earlier.nanos as i128;
        whole * NANOS_PER_SEC + part
    }
}

/// `chrono::Local::now`, read as whole seconds since the epoch
/// (`DateTime::timestamp`) and the nanoseconds past them
/// (`DateTime::timestamp_subsec_nanos`). Nothing is claimed of the instant:
/// two readings may be in any order. `chrono` panics where the system clock
/// is set before 1970, which no argument can rule out.
#[verifier::external_body]
pub(crate) fn wall_clock() -> (now: Timestamp) {
    let now = chrono::Local::now();
    Timestamp { secs: now.timestamp(), nanos: now.timestamp_subsec_nanos() }
}

} // verus!
