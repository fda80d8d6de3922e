//! Time as nanoseconds counted from the start of a clock.

use vstd::prelude::*;

verus! {

/// The reading of a monotonic clock that a [`Clock`] counts from.
#[verifier::external_type_specification]
#[verifier::external_body]
pub struct ExStdInstant(std::time::Instant);

/// `std::time::Instant::now`. Nothing is claimed of the instant it returns.
pub assume_specification[ std::time::Instant::now ]() -> (instant: std::time::Instant)
;

/// The longest time a clock can show: the largest `std::time::Duration`, in nanoseconds.
pub const MAX_ELAPSED_NANOS: u128 = 18_446_744_073_709_551_615_999_999_999;

pub const NANOS_PER_SEC: u128 = 1_000_000_000;

pub const NANOS_PER_MILLI: u128 = 1_000_000;

/// A point in time: nanoseconds since the clock was started.
#[derive(Debug, Clone, Copy, PartialEq, Eq, Structural)]
pub struct Instant {
    pub nanos: u128,
}

/// A length of time in nanoseconds.
#[derive(Debug, Clone, Copy, PartialEq, Eq, Structural)]
pub struct Duration {
    pub nanos: u128,
}

impl Duration {
    pub open spec fn spec_from_millis(millis: u64) -> Duration {
        Duration { nanos: (millis * NANOS_PER_MILLI) as u128 }
    }

    pub fn from_millis(millis: u64) -> (duration: Duration)
        ensures
            duration == Self::spec_from_millis(millis),
            duration.nanos == millis * NANOS_PER_MILLI,
    {
        Duration { nanos: millis as u128 * NANOS_PER_MILLI }
    }

    /// Whole seconds.
    pub fn as_secs(self) -> (secs: u128)
        ensures
            secs == self.nanos / NANOS_PER_SEC,
    {
        self.nanos / NANOS_PER_SEC
    }
}

impl Instant {
    /// What a clock can show.
    pub open spec fn is_reading(self) -> bool {
        self.nanos <= MAX_ELAPSED_NANOS
    }

    /// The instant `duration` later is representable.
    pub open spec fn can_add(self, duration: Duration) -> bool {
        self.nanos + duration.nanos <= u128::MAX
    }

    pub open spec fn later(self, duration: Duration) -> Instant {
        Instant { nanos: (self.nanos + duration.nanos) as u128 }
    }

    /// The instant `duration` after this one.
    pub fn after(self, duration: Duration) -> (instant: Instant)
        requires
            self.can_add(duration),
        ensures
            instant == self.later(duration),
            instant.nanos == self.nanos + duration.nanos,
    {
        Instant { nanos: self.nanos + duration.nanos }
    }

    pub open spec fn since(self, earlier: Instant) -> Duration {
        Duration {
            nanos: if self.nanos >= earlier.nanos {
                (self.nanos - earlier.nanos) as u128
            } else {
                0
            },
        }
    }

    /// The time from `earlier` to this instant, zero where `earlier` is the later one.
    pub fn saturating_duration_since(self, earlier: Instant) -> (duration: Duration)
        ensures
            duration == self.since(earlier),
    {
        Duration { nanos: self.nanos.saturating_sub(earlier.nanos) }
    }
}

/// A running clock.
#[derive(Debug, Clone, Copy)]
pub struct Clock {
    origin: std::time::Instant,
}

impl Clock {
    /// The clock counts from an instant that `std::time::Instant::now` returned.
    pub closed spec fn is_started(self) -> bool {
        call_ensures(std::time::Instant::now, (), self.origin)
    }

    /// `now` is what was measured to have elapsed since the start of this clock.
    pub closed spec fn shows(self, now: Instant) -> bool {
        call_ensures(elapsed_nanos, (&self.origin,), now.nanos)
    }

    /// A clock that starts counting now.
    pub fn start() -> (clock: Clock)
        ensures
            clock.is_started(),
    {
        Clock { origin: std::time::Instant::now() }
    }

    /// The current time on this clock.
    pub fn now(&self) -> (now: Instant)
        ensures
            self.shows(now),
            now.is_reading(),
    {
        Instant { nanos: elapsed_nanos(&self.origin) }
    }
}

/// `std::time::Instant::elapsed`, with the duration it returns counted in nanoseconds. It depends
/// on the time: what is claimed is only that no more than the largest duration has passed.
#[verifier::external_body]
fn elapsed_nanos(origin: &std::time::Instant) -> (nanos: u128)
    ensures
        nanos <= MAX_ELAPSED_NANOS,
{
    origin.elapsed().as_nanos()
}

/// A thousand milliseconds are a second, and a billion nanoseconds are one.
pub proof fn law_durations(millis: u64, duration: Duration, secs: u128)
    requires
        call_ensures(Duration::from_millis, (millis,), duration),
        call_ensures(Duration::as_secs, (duration,), secs),
    ensures
        duration.nanos == millis * 1_000_000,
        secs == millis as int / 1000,
{
    assert((millis * 1_000_000) / 1_000_000_000 == millis as int / 1000);
}

/// Whole seconds leave out less than a second.
pub proof fn law_whole_seconds(duration: Duration, secs: u128)
    requires
        call_ensures(Duration::as_secs, (duration,), secs),
    ensures
        0 <= duration.nanos - secs * 1_000_000_000 < 1_000_000_000,
{
}

/// The time since an instant leads from it to now; what lies ahead has not passed at all.
pub proof fn law_time_since(now: Instant, earlier: Instant, passed: Duration)
    requires
        call_ensures(Instant::saturating_duration_since, (now, earlier), passed),
    ensures
        earlier.nanos <= now.nanos ==> earlier.nanos + passed.nanos == now.nanos,
        now.nanos <= earlier.nanos ==> passed.nanos == 0,
{
}

/// Going a while ahead takes that while.
pub proof fn law_time_after(now: Instant, duration: Duration, then: Instant)
    requires
        call_ensures(Instant::after, (now, duration), then),
    ensures
        then.nanos - now.nanos == duration.nanos,
{
}

} // verus!
