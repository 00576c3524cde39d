//! Spans of time, and the readings of the monotonic clock they come from.
//!
//! A [`Duration`] is a whole number of nanoseconds with the range of the
//! standard library's type: at most `u64::MAX` seconds and 999,999,999
//! nanoseconds. A [`Clock`] reads the monotonic clock as the time since the
//! clock was made, so moments are durations too and subtract as numbers.

use std::time::Instant;
use vstd::prelude::*;

verus! {

/// Nanoseconds in one second.
pub const NANOS_PER_SEC: u128 = 1_000_000_000;

/// Nanoseconds in one microsecond.
pub const NANOS_PER_MICRO: u128 = 1_000;

/// Nanoseconds in the longest representable duration.
pub const MAX_NANOS: u128 = 18_446_744_073_709_551_615_999_999_999;

/// A span of time, exact to the nanosecond.
#[derive(Debug, Clone, Copy, PartialEq, Eq, Structural)]
pub struct Duration {
    nanos: u128,
}

impl View for Duration {
    type V = nat;

    /// The length in nanoseconds.
    closed spec fn view(&self) -> nat {
        self.nanos as nat
    }
}

impl Duration {
    /// No duration is longer than the longest representable one.
    #[verifier::type_invariant]
    pub open spec fn in_range(self) -> bool {
        self@ <= MAX_NANOS
    }

    /// The duration of `nanos` nanoseconds.
    pub closed spec fn of(nanos: nat) -> Duration {
        Duration { nanos: nanos as u128 }
    }

    /// A duration is determined by its length.
    pub proof fn lemma_of(nanos: nat)
        requires
            nanos <= MAX_NANOS,
        ensures
            Duration::of(nanos)@ == nanos,
            forall|d: Duration| #[trigger] d@ == nanos ==> d == Duration::of(nanos),
    {
    }

    /// The empty duration.
    pub fn zero() -> (d: Self)
        ensures
            d@ == 0,
    {
        Duration { nanos: 0 }
    }

    /// The longest representable duration.
    pub fn max_value() -> (d: Self)
        ensures
            d@ == MAX_NANOS,
    {
        Duration { nanos: MAX_NANOS }
    }

    /// A duration of `secs` whole seconds and `nanos` nanoseconds; nanoseconds
    /// beyond a second carry over, and the sum must stay in range.
    pub fn new(secs: u64, nanos: u32) -> (d: Self)
        requires
            secs * NANOS_PER_SEC + nanos <= MAX_NANOS,
        ensures
            d@ == secs * NANOS_PER_SEC + nanos,
    {
        Duration { nanos: secs as u128 * NANOS_PER_SEC + nanos as u128 }
    }

    /// A duration of whole seconds.
    pub fn from_secs(secs: u64) -> (d: Self)
        ensures
            d@ == secs * NANOS_PER_SEC,
    {
        Duration { nanos: secs as u128 * NANOS_PER_SEC }
    }

    /// A duration of whole microseconds.
    pub fn from_micros(micros: u64) -> (d: Self)
        ensures
            d@ == micros * NANOS_PER_MICRO,
    {
        Duration { nanos: micros as u128 * NANOS_PER_MICRO }
    }

    /// The whole microseconds in this duration.
    pub fn as_micros(&self) -> (micros: u128)
        ensures
            micros == self@ / NANOS_PER_MICRO as nat,
    {
        self.nanos / NANOS_PER_MICRO
    }

    /// The whole seconds in this duration.
    pub fn as_secs(&self) -> (secs: u64)
        ensures
            secs == self@ / NANOS_PER_SEC as nat,
    {
        proof {
            use_type_invariant(self);
        }
        (self.nanos / NANOS_PER_SEC) as u64
    }

    /// The nanoseconds left over after the whole seconds.
    pub fn subsec_nanos(&self) -> (nanos: u32)
        ensures
            nanos == self@ % NANOS_PER_SEC as nat,
            nanos < NANOS_PER_SEC,
    {
        (self.nanos % NANOS_PER_SEC) as u32
    }

    /// Whether this is the empty duration.
    pub fn is_zero(&self) -> (zero: bool)
        ensures
            zero == (self@ == 0),
    {
        self.nanos == 0
    }

    /// Whether this duration is longer than `other`.
    pub fn exceeds(&self, other: &Duration) -> (longer: bool)
        ensures
            longer == (self@ > other@),
    {
        self.nanos > other.nanos
    }

    /// The sum of two durations, `None` when it is out of range.
    pub fn checked_add(&self, other: &Duration) -> (sum: Option<Duration>)
        ensures
            match sum {
                Some(sum) => sum@ == self@ + other@ && self@ + other@ <= MAX_NANOS,
                None => self@ + other@ > MAX_NANOS,
            },
    {
        proof {
            use_type_invariant(self);
            use_type_invariant(other);
        }
        let nanos: u128 = self.nanos + other.nanos;
        if nanos <= MAX_NANOS {
            Some(Duration { nanos })
        } else {
            None
        }
    }

    /// The sum of two durations, held at the longest one when out of range.
    pub fn saturating_add(&self, other: &Duration) -> (sum: Duration)
        ensures
            sum@ == saturated(self@ + other@),
    {
        match self.checked_add(other) {
            Some(sum) => sum,
            None => Duration::max_value(),
        }
    }

    /// The time from `start` to this moment, none when `start` is later.
    pub fn since(&self, start: &Duration) -> (elapsed: Duration)
        ensures
            elapsed@ == between(start@, self@),
    {
        proof {
            use_type_invariant(self);
        }
        Duration { nanos: self.nanos.saturating_sub(start.nanos) }
    }

    /// The duration as a person reads it, such as `1.5s` or `20ms`.
    pub fn debug_text(&self) -> (text: String)
        ensures
            text@ == duration_text(self@),
    {
        let secs: u64 = self.as_secs();
        let nanos: u32 = self.subsec_nanos();
        proof {
            use_type_invariant(self);
        }
        format_duration(secs, nanos)
    }
}

/// A count of nanoseconds held at the longest representable duration.
pub open spec fn saturated(nanos: nat) -> nat {
    if nanos <= MAX_NANOS {
        nanos
    } else {
        MAX_NANOS as nat
    }
}

/// The nanoseconds from one moment to another, none when the first is later.
pub open spec fn between(start: nat, now: nat) -> nat {
    if now >= start {
        (now - start) as nat
    } else {
        0
    }
}

/// How a duration of `nanos` nanoseconds reads.
pub open spec fn duration_text(nanos: nat) -> Seq<char> {
    std_duration_debug((nanos / NANOS_PER_SEC as nat) as u64, (nanos % NANOS_PER_SEC as nat) as u32)
}

/// What the `Debug` formatting of a standard library duration of `secs`
/// seconds and `nanos` nanoseconds prints.
pub uninterp spec fn std_duration_debug(secs: u64, nanos: u32) -> Seq<char>;

/// Formats a standard library duration with `{:?}`. The text is whatever the
/// `Debug` impl of `std::time::Duration` prints for these seconds and
/// nanoseconds; it depends on nothing else.
#[verifier::external_body]
fn format_duration(secs: u64, nanos: u32) -> (text: String)
    requires
        nanos < 1_000_000_000,
    ensures
        text@ == std_duration_debug(secs, nanos),
{
    format!("{:?}", std::time::Duration::new(secs, nanos))
}

/// A reading of the monotonic clock, from `std::time::Instant`.
#[verifier::external_type_specification]
#[verifier::external_body]
pub struct ExInstant(std::time::Instant);

/// A monotonic clock that counts from the moment it was made.
#[derive(Debug, Clone, Copy)]
pub struct Clock {
    origin: Instant,
}

impl Clock {
    /// Starts a clock, at what `std::time::Instant::now` reads. Nothing is
    /// claimed of the moment.
    #[verifier::external_body]
    pub(crate) fn start() -> (clock: Clock) {
        Clock { origin: Instant::now() }
    }

    /// The time since the clock was started, from `std::time::Instant::elapsed`.
    /// Nothing is claimed of its length.
    #[verifier::external_body]
    pub(crate) fn now(&self) -> (now: Duration) {
        Duration { nanos: self.origin.elapsed().as_nanos() }
    }

    /// Whether the clock can have shown `now` nanoseconds when it was read.
    pub closed spec fn shows(self, now: nat) -> bool {
        exists|reading: Duration| #[trigger]
            call_ensures(Clock::now, (&self,), reading) && reading@ == now
    }

    /// Reads the clock.
    pub(crate) fn read(&self) -> (now: Duration)
        ensures
            self.shows(now@),
            now@ <= MAX_NANOS,
    {
        let now = reading_of(self, Clock::now);
        proof {
            use_type_invariant(&now);
        }
        now
    }
}

fn reading_of<F: Fn(&Clock) -> Duration>(clock: &Clock, now: F) -> (reading: Duration)
    requires
        call_requires(now, (clock,)),
    ensures
        call_ensures(now, (clock,), reading),
{
    now(clock)
}

/// The time between two moments leads from the first to the second; a moment
/// before the first is no time later.
pub proof fn law_between_leads_from_start_to_now(start: nat, now: nat)
    ensures
        start <= now ==> start + between(start, now) == now,
        start > now ==> between(start, now) == 0,
{
}

/// A sum of durations is exact as long as the standard library can hold it, and
/// its longest duration beyond that.
pub proof fn law_saturated_time_is_exact_in_range(secs: nat, nanos: nat)
    requires
        nanos < 1_000_000_000,
    ensures
        secs <= u64::MAX ==> saturated(secs * 1_000_000_000 + nanos) == secs * 1_000_000_000
            + nanos,
        secs > u64::MAX ==> saturated(secs * 1_000_000_000 + nanos) == u64::MAX * 1_000_000_000
            + 999_999_999,
{
}

/// A duration reads as its whole seconds with the nanoseconds left over.
pub proof fn law_duration_reads_by_seconds_and_nanoseconds(secs: u64, nanos: u32)
    requires
        nanos < 1_000_000_000,
    ensures
        duration_text((secs * 1_000_000_000 + nanos) as nat) == std_duration_debug(secs, nanos),
{
}

} // verus!
