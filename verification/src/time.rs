//! Points in time and spans of time, counted in nanoseconds.

use vstd::prelude::*;

verus! {

/// A span of time.
#[derive(Debug, Clone, Copy, PartialEq, Eq)]
pub struct Duration {
    /// The length of the span in nanoseconds.
    pub nanos: u128,
}

/// A reading of the wall clock.
#[derive(Debug, Clone, Copy, PartialEq, Eq)]
pub struct Instant {
    /// Nanoseconds since the Unix epoch.
    pub nanos: u128,
}

impl Duration {
    /// A span of `millis` milliseconds.
    pub fn from_millis(millis: u64) -> (d: Duration)
        ensures
            d.nanos == millis * 1_000_000,
    {
        let millis_wide: u128 = millis as u128;
        Duration { nanos: millis_wide * 1_000_000 }
    }

    /// A span of `nanos` nanoseconds.
    pub fn from_nanos(nanos: u128) -> (d: Duration)
        ensures
            d.nanos == nanos,
    {
        Duration { nanos }
    }
}

impl Instant {
    /// The time that has passed between `self` and `now`; nothing if `now`
    /// is the earlier of the two.
    pub open spec fn spec_elapsed_at(self, now: Instant) -> Duration {
        Duration { nanos: if now.nanos >= self.nanos { (now.nanos - self.nanos) as u128 } else { 0 } }
    }

    /// Whether at least `delay` has passed between `self` and `now`.
    pub open spec fn spec_expired_at(self, now: Instant, delay: Duration) -> bool {
        self.spec_elapsed_at(now).nanos >= delay.nanos
    }

    /// The instant `nanos` nanoseconds after the Unix epoch.
    pub fn from_nanos(nanos: u128) -> (t: Instant)
        ensures
            t.nanos == nanos,
    {
        Instant { nanos }
    }

    #[verifier::when_used_as_spec(spec_elapsed_at)]
    pub fn elapsed_at(self, now: Instant) -> (d: Duration)
        ensures
            d == self.spec_elapsed_at(now),
    {
        if now.nanos >= self.nanos {
            Duration { nanos: now.nanos - self.nanos }
        } else {
            Duration { nanos: 0 }
        }
    }

    #[verifier::when_used_as_spec(spec_expired_at)]
    pub fn expired_at(self, now: Instant, delay: Duration) -> (expired: bool)
        ensures
            expired == self.spec_expired_at(now, delay),
    {
        self.elapsed_at(now).nanos >= delay.nanos
    }

    /// The current reading of the wall clock. A clock that is set before the
    /// Unix epoch reads as the epoch.
    pub fn now() -> Instant {
        let time = system_time_now();
        let since_epoch = match since_unix_epoch(&time) {
            Ok(span) => Some(nanos_of(&span)),
            Err(_) => None,
        };
        Instant::from_reading(since_epoch)
    }

    /// The instant that a reading of a clock stands for: the clock gives the
    /// nanoseconds since the Unix epoch, or nothing where it is set before the
    /// epoch, which reads as the epoch.
    pub open spec fn spec_from_reading(since_epoch: Option<u128>) -> Instant {
        match since_epoch {
            Some(nanos) => Instant { nanos },
            None => Instant { nanos: 0 },
        }
    }

    /// The instant that a reading of a clock stands for.
    #[verifier::when_used_as_spec(spec_from_reading)]
    pub fn from_reading(since_epoch: Option<u128>) -> (t: Instant)
        ensures
            t == Self::spec_from_reading(since_epoch),
    {
        match since_epoch {
            Some(nanos) => Instant { nanos },
            None => Instant { nanos: 0 },
        }
    }
}

/// The system clock of std.
#[verifier::external_type_specification]
#[verifier::external_body]
pub struct ExSystemTime(std::time::SystemTime);

/// The error of std for a time that lies before another.
#[verifier::external_type_specification]
#[verifier::external_body]
pub struct ExSystemTimeError(std::time::SystemTimeError);

/// Reads the system clock with `std::time::SystemTime::now`. Nothing is
/// claimed of the reading.
#[verifier::external_body]
fn system_time_now() -> std::time::SystemTime {
    std::time::SystemTime::now()
}

/// The span between the Unix epoch and `time`, by
/// `std::time::SystemTime::duration_since`, which fails for a time before
/// the epoch. Nothing is claimed of the span.
#[verifier::external_body]
fn since_unix_epoch(time: &std::time::SystemTime) -> Result<
    core::time::Duration,
    std::time::SystemTimeError,
> {
    time.duration_since(std::time::UNIX_EPOCH)
}

/// The nanoseconds of a span of std, by `core::time::Duration::as_nanos`.
/// Nothing is claimed of their number.
#[verifier::external_body]
fn nanos_of(span: &core::time::Duration) -> u128 {
    span.as_nanos()
}

} // verus!
