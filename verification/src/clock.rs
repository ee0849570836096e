//! Instants on the UTC time line, as plain integers.

use vstd::prelude::*;

verus! {

/// Nanoseconds in one second.
pub const NANOS_PER_SECOND: i128 = 1_000_000_000;

/// An instant: whole seconds since the Unix epoch and the nanoseconds past
/// that second.
#[derive(Clone, Copy, Debug, PartialEq, Eq, Structural)]
pub struct Timestamp {
    pub secs: i64,
    pub nanos: u32,
}

impl Timestamp {
    /// The instant as one number: nanoseconds since the Unix epoch.
    pub open spec fn nanos_since_epoch(self) -> int {
        self.secs * 1_000_000_000 + self.nanos
    }

    /// Whether the instant is written in its one normal form: with less
    /// than a second's worth of nanoseconds past the whole seconds.
    pub open spec fn is_normal(self) -> bool {
        self.nanos < 1_000_000_000
    }

    pub fn new(secs: i64, nanos: u32) -> (t: Timestamp)
        ensures
            t.secs == secs,
            t.nanos == nanos,
    {
        Timestamp { secs, nanos }
    }

    /// Nanoseconds since the Unix epoch.
    pub fn as_nanos(&self) -> (n: i128)
        ensures
            n == self.nanos_since_epoch(),
    {
        (self.secs as i128) * NANOS_PER_SECOND + (self.nanos as i128)
    }

    /// Whether this instant is later than the one `seconds` before `now`.
    pub fn is_within(&self, seconds: u32, now: &Timestamp) -> (r: bool)
        ensures
            r == (self.nanos_since_epoch() > now.nanos_since_epoch() - seconds * 1_000_000_000),
    {
        self.as_nanos() > now.as_nanos() - (seconds as i128) * NANOS_PER_SECOND
    }
}

/// The system clock, read with `chrono::Utc::now`. The seconds are those of
/// `DateTime::timestamp`, the nanoseconds those of
/// `DateTime::timestamp_subsec_nanos`. `Utc::now` makes its instant from the
/// time since the Unix epoch as a `Duration`, whose part below the second is
/// less than one billion nanoseconds, and the instant gives that part back
/// unchanged: so every reading is in normal form. Nothing else is claimed of
/// it: two readings need not even be in order. `Utc::now` panics where the
/// system clock stands before the Unix epoch.
#[verifier::external_body]
fn utc_now() -> (t: Timestamp)
    ensures
        t.is_normal(),
{
    let now = chrono::Utc::now();
    Timestamp { secs: now.timestamp(), nanos: now.timestamp_subsec_nanos() }
}

/// The current instant in UTC, as the clock reads it, in normal form. Which
/// instant that is, is for the clock to say.
pub fn get_current_datetime() -> (t: Timestamp)
    ensures
        t.is_normal(),
{
    utc_now()
}

} // verus!
