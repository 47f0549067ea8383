//! Instants on the UTC time line, as seconds and nanoseconds since the Unix
//! epoch.

use chrono::offset::LocalResult;
use chrono::TimeZone;
use chrono::Utc;
use vstd::prelude::*;

verus! {

/// The Unix second of the earliest instant that has a calendar date
/// (the first second of the year -262143).
pub const MIN_SECONDS: i64 = -8_334_601_228_800;

/// The Unix second of the latest instant that has a calendar date
/// (the last second of the year 262142).
pub const MAX_SECONDS: i64 = 8_210_266_876_799;

/// One second in nanoseconds.
pub const NANOS_PER_SECOND: u32 = 1_000_000_000;

/// Whether a pair of Unix seconds and nanoseconds names an instant that has a
/// calendar date. The nanoseconds may pass one second only inside a leap
/// second, which can stand at the last second of a minute only.
pub open spec fn representable(secs: int, nanos: int) -> bool {
    &&& MIN_SECONDS <= secs <= MAX_SECONDS
    &&& 0 <= nanos < 2 * NANOS_PER_SECOND
    &&& nanos >= NANOS_PER_SECOND ==> secs % 60 == 59
}

/// A point in time: whole seconds since 1970-01-01T00:00:00Z and the
/// nanoseconds past that second.
#[derive(Clone, Copy, Debug, PartialEq, Eq, Structural)]
pub struct Instant {
    pub secs: i64,
    pub nanos: u32,
}

/// `Utc.timestamp_opt` of chrono, read back through `DateTime::timestamp` and
/// `DateTime::timestamp_subsec_nanos`. The contract claims that chrono accepts
/// exactly the pairs that `representable` describes, and that the date-time it
/// builds reports the same seconds and nanoseconds.
#[verifier::external_body]
fn utc_timestamp_opt(secs: i64, nanos: u32) -> (stamp: Option<(i64, u32)>)
    ensures
        stamp == if representable(secs as int, nanos as int) {
            Some((secs, nanos))
        } else {
            None::<(i64, u32)>
        },
{
    match Utc.timestamp_opt(secs, nanos) {
        LocalResult::Single(datetime) => Some((datetime.timestamp(), datetime.timestamp_subsec_nanos())),
        LocalResult::Ambiguous(_, _) => None,
        LocalResult::None => None,
    }
}

impl Instant {
    /// Whether this instant has a calendar date.
    pub open spec fn valid(self) -> bool {
        representable(self.secs as int, self.nanos as int)
    }

    /// Whether this instant lies strictly before `other`.
    pub open spec fn precedes(self, other: Instant) -> bool {
        self.secs < other.secs || (self.secs == other.secs && self.nanos < other.nanos)
    }

    /// Whether this instant has been reached at the time `now`: `now` is
    /// this instant or a later one.
    pub open spec fn reached_at(self, now: Instant) -> bool {
        !now.precedes(self)
    }

    /// Whether this instant lies strictly before `other`.
    pub fn is_before(&self, other: &Instant) -> (before: bool)
        ensures
            before == self.precedes(*other),
    {
        self.secs < other.secs || (self.secs == other.secs && self.nanos < other.nanos)
    }

    /// Whether this instant has been reached at the time `now`.
    pub fn has_passed(&self, now: &Instant) -> (passed: bool)
        ensures
            passed == self.reached_at(*now),
    {
        !now.is_before(self)
    }

    /// The nanoseconds from this instant to `later`; negative where `later`
    /// is the earlier one.
    pub open spec fn nanos_until(self, later: Instant) -> int {
        (later.secs - self.secs) * 1_000_000_000 + (later.nanos - self.nanos)
    }

    /// The whole seconds from this instant to `later`; `None` where `later`
    /// is the earlier one.
    pub fn whole_seconds_until(&self, later: &Instant) -> (seconds: Option<u64>)
        ensures
            seconds == if self.nanos_until(*later) < 0 {
                None::<u64>
            } else {
                Some((self.nanos_until(*later) / 1_000_000_000) as u64)
            },
    {
        let total: i128 = (later.secs as i128 - self.secs as i128) * 1_000_000_000 + (later.nanos as i128
            - self.nanos as i128);
        if total < 0 {
            None
        } else {
            Some((total / 1_000_000_000) as u64)
        }
    }

    /// This instant moved by `seconds`, which may be negative; `None` where
    /// the result has no calendar date.
    pub fn checked_add_seconds(&self, seconds: i64) -> (moved: Option<Instant>)
        ensures
            moved == if representable(self.secs + seconds, self.nanos as int) {
                Some(Instant { secs: (self.secs + seconds) as i64, nanos: self.nanos })
            } else {
                None::<Instant>
            },
    {
        match self.secs.checked_add(seconds) {
            Some(secs) => Instant::from_timestamp(secs, self.nanos),
            None => None,
        }
    }

    /// The instant with the given Unix seconds and nanoseconds, if it has a
    /// calendar date.
    pub fn from_timestamp(secs: i64, nanos: u32) -> (made: Option<Instant>)
        ensures
            made == if representable(secs as int, nanos as int) {
                Some(Instant { secs, nanos })
            } else {
                None::<Instant>
            },
    {
        match utc_timestamp_opt(secs, nanos) {
            Some((s, n)) => Some(Instant { secs: s, nanos: n }),
            None => None,
        }
    }
}

} // verus!
