//! Time: instants as plain numbers, what the engine asks of two
//! instants, and the clock.

use vstd::prelude::*;

verus! {

/// An instant in UTC: the whole seconds since the start of 1970, and the
/// nanoseconds into that second. Instants are ordered by the seconds, and
/// within one second by the nanoseconds.
#[derive(Debug, Clone, Copy, PartialEq, Eq, Hash, Structural)]
pub struct Timestamp {
    pub seconds: i64,
    pub nanos: u32,
}

/// The quotient of `a` by the positive `b`, counted towards zero.
pub open spec fn whole(a: int, b: int) -> int {
    if a >= 0 {
        a / b
    } else {
        -((-a) / b)
    }
}

impl Timestamp {
    /// Whether this instant comes after `other`.
    pub open spec fn spec_is_after(self, other: Timestamp) -> bool {
        self.seconds > other.seconds || (self.seconds == other.seconds && self.nanos > other.nanos)
    }

    /// Whether this instant comes after `other`.
    #[verifier::when_used_as_spec(spec_is_after)]
    pub fn is_after(self, other: Timestamp) -> (r: bool)
        ensures
            r == self.spec_is_after(other),
    {
        self.seconds > other.seconds || (self.seconds == other.seconds && self.nanos > other.nanos)
    }

    /// The nanoseconds from `earlier` to this instant.
    pub open spec fn spec_nanos_since(self, earlier: Timestamp) -> int {
        (self.seconds - earlier.seconds) * 1_000_000_000 + (self.nanos - earlier.nanos)
    }

    /// The whole days from `earlier` to this instant: the whole seconds
    /// between the two, in days of 86 400 seconds, both counted towards
    /// zero.
    pub open spec fn spec_days_since(self, earlier: Timestamp) -> int {
        whole(whole(self.spec_nanos_since(earlier), 1_000_000_000), 86_400)
    }

    /// The whole days from `earlier` to this instant. Negative where
    /// `earlier` is the later of the two by a day or more.
    pub fn days_since(self, earlier: Timestamp) -> (days: i64)
        ensures
            days == self.spec_days_since(earlier),
    {
        let seconds: i128 = self.seconds as i128 - earlier.seconds as i128;
        let nanos: i128 = seconds * 1_000_000_000 + (self.nanos as i128 - earlier.nanos as i128);
        let days: i128 = (nanos / 1_000_000_000) / 86_400;
        days as i64
    }
}

/// The current instant, from `chrono::Utc::now`: its seconds by
/// `DateTime::timestamp`, its nanoseconds by
/// `DateTime::timestamp_subsec_nanos`.
///
/// Nothing is claimed of the instant but its range: two calls may differ
/// in either direction. The seconds are a number of days that fits in 32
/// bits times 86 400, plus the seconds of one day; the nanoseconds stay
/// below two seconds. `Utc::now` gives up when the system clock is set
/// before 1970.
#[verifier::external_body]
pub(crate) fn now() -> (t: Timestamp)
    ensures
        -0x1_0000_0000_0000 < t.seconds < 0x1_0000_0000_0000,
        t.nanos < 2_000_000_000,
{
    let t = chrono::Utc::now();
    Timestamp { seconds: t.timestamp(), nanos: t.timestamp_subsec_nanos() }
}

} // verus!
