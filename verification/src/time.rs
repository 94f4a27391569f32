//! Durations and monotonic instants in whole nanoseconds.
//!
//! A [`Duration`] is a non-negative span of time kept as a seconds count plus
//! a sub-second nanosecond remainder, so accumulation never drifts the way a
//! floating-point representation would. Its mathematical view (`d@`) is the
//! total nanosecond count. Subtraction is only defined when the minuend is at
//! least the subtrahend; callers check the order first, which is how every
//! pacing algorithm avoids underflow.
//!
//! An [`Instant`] is a monotonic timestamp, a nanosecond offset from an
//! arbitrary origin fixed for the whole run. Only differences between two
//! instants and comparisons are meaningful; there is no calendar meaning.

use vstd::prelude::*;

verus! {

/// Nanoseconds in one second.
pub const NANOS_PER_SEC: u32 = 1_000_000_000;

/// The largest nanosecond count a `Duration` can hold.
pub open spec fn max_duration_nanos() -> int {
    u64::MAX * 1_000_000_000 + 999_999_999
}

/// A non-negative span of time with nanosecond resolution.
#[derive(Debug, Clone, Copy, PartialEq, Eq, Structural)]
pub struct Duration {
    secs: u64,
    subsec_nanos: u32,
}

impl View for Duration {
    type V = int;

    /// The total nanosecond count.
    closed spec fn view(&self) -> int {
        self.secs * 1_000_000_000 + self.subsec_nanos
    }
}

impl Duration {
    #[verifier::type_invariant]
    spec fn inv(self) -> bool {
        self.subsec_nanos < 1_000_000_000
    }

    /// A duration of `secs` seconds plus `subsec_nanos` nanoseconds.
    pub fn new(secs: u64, subsec_nanos: u32) -> (d: Duration)
        requires
            subsec_nanos < 1_000_000_000,
        ensures
            d@ == secs * 1_000_000_000 + subsec_nanos,
    {
        Duration { secs, subsec_nanos }
    }

    /// The zero-length duration.
    pub fn zero() -> (d: Duration)
        ensures
            d@ == 0,
    {
        Duration { secs: 0, subsec_nanos: 0 }
    }

    /// A duration of `millis` milliseconds.
    pub fn from_millis(millis: u64) -> (d: Duration)
        ensures
            d@ == millis * 1_000_000,
    {
        let secs: u64 = millis / 1_000;
        let subsec_nanos: u32 = ((millis % 1_000) as u32) * 1_000_000;
        proof {
            assert(secs * 1_000_000_000 + subsec_nanos == millis * 1_000_000) by (nonlinear_arith)
                requires
                    secs == millis / 1_000,
                    subsec_nanos == (millis % 1_000) * 1_000_000,
            {
                vstd::arithmetic::div_mod::lemma_fundamental_div_mod(millis as int, 1_000);
            }
        }
        Duration { secs, subsec_nanos }
    }

    /// The whole-seconds part.
    pub fn as_secs(&self) -> (r: u64)
        ensures
            r == self@ / 1_000_000_000,
    {
        proof {
            use_type_invariant(self);
            vstd::arithmetic::div_mod::lemma_fundamental_div_mod_converse(
                self@,
                1_000_000_000,
                self.secs as int,
                self.subsec_nanos as int,
            );
        }
        self.secs
    }

    /// The sub-second nanosecond remainder.
    pub fn subsec_nanos(&self) -> (r: u32)
        ensures
            r == self@ % 1_000_000_000,
    {
        proof {
            use_type_invariant(self);
            vstd::arithmetic::div_mod::lemma_fundamental_div_mod_converse(
                self@,
                1_000_000_000,
                self.secs as int,
                self.subsec_nanos as int,
            );
        }
        self.subsec_nanos
    }

    /// The total nanosecond count, as a 128-bit integer; always fits.
    pub fn as_nanos_u128(&self) -> (r: u128)
        ensures
            r == self@,
    {
        self.secs as u128 * 1_000_000_000 + self.subsec_nanos as u128
    }

    /// Strict order on durations by their nanosecond counts.
    pub fn lt(&self, other: &Duration) -> (r: bool)
        ensures
            r == (self@ < other@),
    {
        proof {
            use_type_invariant(self);
            use_type_invariant(other);
        }
        self.secs < other.secs || (self.secs == other.secs && self.subsec_nanos < other.subsec_nanos)
    }

    /// Non-strict order on durations by their nanosecond counts.
    pub fn le(&self, other: &Duration) -> (r: bool)
        ensures
            r == (self@ <= other@),
    {
        !other.lt(self)
    }

    /// The sum of two durations, or `None` when it would exceed the
    /// representable range.
    pub fn checked_add(&self, other: &Duration) -> (r: Option<Duration>)
        ensures
            self@ + other@ <= max_duration_nanos() ==> (r matches Some(d) && d@ == self@ + other@),
            self@ + other@ > max_duration_nanos() ==> r is None,
    {
        proof {
            use_type_invariant(self);
            use_type_invariant(other);
        }
        let mut nanos: u32 = self.subsec_nanos + other.subsec_nanos;
        let mut carry: u64 = 0;
        if nanos >= NANOS_PER_SEC {
            nanos = nanos - NANOS_PER_SEC;
            carry = 1;
        }
        match self.secs.checked_add(other.secs) {
            Some(s) => match s.checked_add(carry) {
                Some(secs) => Some(Duration { secs, subsec_nanos: nanos }),
                None => None,
            },
            None => None,
        }
    }

    /// The difference of two durations; the minuend must be at least the
    /// subtrahend, which callers establish with an order check first.
    pub fn checked_sub(&self, other: &Duration) -> (r: Option<Duration>)
        ensures
            self@ >= other@ ==> (r matches Some(d) && d@ == self@ - other@),
            self@ < other@ ==> r is None,
    {
        proof {
            use_type_invariant(self);
            use_type_invariant(other);
        }
        if self.lt(other) {
            None
        } else {
            if self.subsec_nanos >= other.subsec_nanos {
                Some(Duration {
                    secs: self.secs - other.secs,
                    subsec_nanos: self.subsec_nanos - other.subsec_nanos,
                })
            } else {
                Some(Duration {
                    secs: self.secs - other.secs - 1,
                    subsec_nanos: NANOS_PER_SEC - other.subsec_nanos + self.subsec_nanos,
                })
            }
        }
    }
}

/// A duration's nanosecond count is never negative.
pub proof fn lemma_duration_nonneg(d: Duration)
    ensures
        0 <= d@,
{
}

/// The nanosecond count of a duration held by executable code lies in the
/// representable range.
pub fn duration_bounds(d: &Duration)
    ensures
        0 <= d@ <= max_duration_nanos(),
{
    proof {
        use_type_invariant(d);
    }
}

/// The total nanosecond count of a duration, as a 64-bit integer.
pub fn as_nanos(duration: Duration) -> (r: u64)
    requires
        duration@ <= u64::MAX,
    ensures
        r == duration@,
{
    proof {
        use_type_invariant(duration);
    }
    duration.secs * 1_000_000_000 + duration.subsec_nanos as u64
}

/// The duration holding exactly `nanos` nanoseconds.
pub fn from_nanos(nanos: u64) -> (d: Duration)
    ensures
        d@ == nanos,
{
    let secs: u64 = nanos / 1_000_000_000;
    let subsec_nanos: u32 = (nanos % 1_000_000_000) as u32;
    proof {
        vstd::arithmetic::div_mod::lemma_fundamental_div_mod(nanos as int, 1_000_000_000);
    }
    Duration { secs, subsec_nanos }
}

/// A monotonic timestamp: a nanosecond offset from an origin fixed for the
/// run. Only differences and comparisons between instants are meaningful.
#[derive(Debug, Clone, Copy, PartialEq, Eq, Structural)]
pub struct Instant {
    nanos: u64,
}

impl View for Instant {
    type V = int;

    /// The nanosecond offset from the run's origin.
    closed spec fn view(&self) -> int {
        self.nanos as int
    }
}

impl Instant {
    /// The instant `nanos` nanoseconds after the run's origin.
    pub fn new(nanos: u64) -> (t: Instant)
        ensures
            t@ == nanos,
    {
        Instant { nanos }
    }

    /// The nanosecond offset from the run's origin.
    pub fn nanos(&self) -> (r: u64)
        ensures
            r == self@,
    {
        self.nanos
    }

    /// Strict order on instants.
    pub fn lt(&self, other: &Instant) -> (r: bool)
        ensures
            r == (self@ < other@),
    {
        self.nanos < other.nanos
    }

    /// The time elapsed from `earlier` to `self`; `earlier` must not be the
    /// later of the two, which the monotonic clock guarantees to callers that
    /// measure forward.
    pub fn duration_since(&self, earlier: &Instant) -> (d: Duration)
        requires
            earlier@ <= self@,
        ensures
            d@ == self@ - earlier@,
    {
        from_nanos(self.nanos - earlier.nanos)
    }

    /// The instant one duration later than `self`.
    pub fn advanced_by(&self, d: &Duration) -> (t: Instant)
        requires
            self@ + d@ <= u64::MAX,
        ensures
            t@ == self@ + d@,
    {
        proof {
            use_type_invariant(d);
        }
        Instant { nanos: self.nanos + as_nanos(*d) }
    }
}

/// Wraps a duration to expose its millisecond rendering: the whole
/// milliseconds of the entire duration plus three further decimal digits
/// (microseconds), both truncated, e.g. 16_666_667 ns renders as "16.666ms"
/// and 2.5 s as "2500.000ms".
pub struct PrettyDuration(pub Duration);

impl PrettyDuration {
    /// The duration's whole-millisecond count.
    pub fn millis(&self) -> (r: u128)
        ensures
            r == self.0@ / 1_000_000,
    {
        self.0.as_nanos_u128() / 1_000_000
    }

    /// The microsecond part: the three decimal digits after the milliseconds,
    /// truncated.
    pub fn micros(&self) -> (r: u32)
        ensures
            r == self.0@ % 1_000_000 / 1_000,
    {
        proof {
            vstd::arithmetic::div_mod::lemma_mod_mod(self.0@, 1_000_000, 1_000);
            assert(1_000_000int * 1_000 == 1_000_000_000);
        }
        (self.0.subsec_nanos() % 1_000_000) / 1_000
    }
}

} // verus!
