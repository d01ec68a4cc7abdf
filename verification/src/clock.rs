//! Wall-clock time as the session records it.
//!
//! The clock is read through `std::time`, which returns for every clock,
//! also for one that stands before the Unix epoch.

use vstd::prelude::*;

verus! {

/// A point in time: whole seconds since the Unix epoch and the nanoseconds
/// into that second.
#[derive(Clone, Copy, Debug, PartialEq, Eq, Structural)]
pub struct Timestamp {
    pub secs: u64,
    pub nanos: u32,
}

impl Timestamp {
    /// `self` is not later than `other`.
    pub open spec fn not_after(self, other: Timestamp) -> bool {
        self.secs < other.secs || (self.secs == other.secs && self.nanos <= other.nanos)
    }

    /// The time that a clock shows which stands `elapsed` (seconds and
    /// nanoseconds) after the epoch. A clock that stands before the epoch
    /// has no such reading and shows the epoch itself.
    pub open spec fn after_epoch(elapsed: Option<(u64, u32)>) -> Timestamp {
        match elapsed {
            Some((secs, nanos)) => Timestamp { secs, nanos },
            None => Timestamp { secs: 0, nanos: 0 },
        }
    }

    /// Whether `self` is not later than `other`.
    pub fn is_not_after(&self, other: &Timestamp) -> (r: bool)
        ensures
            r == self.not_after(*other),
    {
        self.secs < other.secs || (self.secs == other.secs && self.nanos <= other.nanos)
    }

    /// The time that a clock shows, given how long after the epoch it
    /// stands, or `None` where it stands before the epoch.
    pub fn from_elapsed(elapsed: Option<(u64, u32)>) -> (t: Timestamp)
        ensures
            t == Timestamp::after_epoch(elapsed),
    {
        match elapsed {
            Some((secs, nanos)) => Timestamp { secs, nanos },
            None => Timestamp { secs: 0, nanos: 0 },
        }
    }
}

/// `std::time::SystemTime`, carried through untouched.
#[verifier::external_type_specification]
#[verifier::external_body]
pub struct ExSystemTime(std::time::SystemTime);

/// `std::time::SystemTimeError`, carried through untouched.
#[verifier::external_type_specification]
#[verifier::external_body]
pub struct ExSystemTimeError(std::time::SystemTimeError);

/// `SystemTime::now` reads the system clock. Nothing is claimed of what it
/// reads.
pub assume_specification[ std::time::SystemTime::now ]() -> (t: std::time::SystemTime)
;

/// Asks `SystemTime::duration_since` how long after the Unix epoch
/// (`std::time::UNIX_EPOCH`) the time `t` lies.
///
/// Trusted: the call returns the elapsed time, or an error where `t` lies
/// before the epoch. Nothing is claimed of which it is.
#[verifier::external_body]
fn since_unix_epoch(t: &std::time::SystemTime) -> (r: Result<
    core::time::Duration,
    std::time::SystemTimeError,
>) {
    t.duration_since(std::time::UNIX_EPOCH)
}

/// `Duration::as_secs` gives the whole seconds of a duration. Nothing is
/// claimed of how many they are.
pub assume_specification[ core::time::Duration::as_secs ](d: &core::time::Duration) -> (secs: u64)
;

/// `Duration::subsec_nanos` gives the part of a duration below one second,
/// in nanoseconds: less than one billion.
pub assume_specification[ core::time::Duration::subsec_nanos ](d: &core::time::Duration) -> (nanos:
    u32)
    ensures
        nanos < 1_000_000_000,
;

/// The current time: what `Timestamp::from_elapsed` makes of the reading of
/// the system clock. Which reading that is cannot be said here; a clock
/// that stands before the epoch reads as the epoch.
pub fn now() -> (t: Timestamp)
    ensures
        exists|elapsed: Option<(u64, u32)>|
            (elapsed matches Some(reading) ==> reading.1 < 1_000_000_000) && t
                == #[trigger] Timestamp::after_epoch(elapsed),
        t.nanos < 1_000_000_000,
{
    let clock = std::time::SystemTime::now();
    let elapsed = match since_unix_epoch(&clock) {
        Ok(duration) => Some((duration.as_secs(), duration.subsec_nanos())),
        Err(_) => None,
    };
    let t = Timestamp::from_elapsed(elapsed);
    assert(t == Timestamp::after_epoch(elapsed));
    t
}

} // verus!
