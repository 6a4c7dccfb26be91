//! Points and spans of time in whole nanoseconds, and the clock they are read from.

use vstd::prelude::*;

verus! {

/// Nanoseconds in one second.
pub const NANOS_PER_SEC: u128 = 1_000_000_000;

/// The largest value a clock can read: `u64::MAX` seconds and 999 999 999 nanoseconds.
pub const LATEST_READING: i128 = 18_446_744_073_709_551_615_999_999_999;

/// A span of time.
#[derive(Debug, Clone, Copy, PartialEq, Eq, Structural)]
pub struct Duration {
    /// Length in nanoseconds.
    pub nanos: u128,
}

/// A point in time.
#[derive(Debug, Clone, Copy, PartialEq, Eq, Structural)]
pub struct Moment {
    /// Nanoseconds after the clock's origin; negative for a point before it.
    pub nanos: i128,
}

/// The span of `secs` whole seconds.
pub open spec fn whole_secs(secs: nat) -> Duration {
    Duration { nanos: (secs * NANOS_PER_SEC) as u128 }
}

impl Duration {
    /// Whole seconds in the span, rounded down; `u64::MAX` if there are more than that.
    pub open spec fn secs(self) -> nat {
        let secs = self.nanos as nat / NANOS_PER_SEC as nat;
        if secs <= u64::MAX {
            secs
        } else {
            u64::MAX as nat
        }
    }

    /// The part of this span that is left after `other` has passed, or nothing.
    pub open spec fn minus(self, other: Duration) -> Duration {
        Duration {
            nanos: if self.nanos >= other.nanos {
                (self.nanos - other.nanos) as u128
            } else {
                0
            },
        }
    }

    /// A span of `secs` seconds.
    pub fn from_secs(secs: u64) -> (r: Duration)
        ensures
            r == whole_secs(secs as nat),
            r.nanos == secs * NANOS_PER_SEC,
    {
        Duration { nanos: secs as u128 * NANOS_PER_SEC }
    }

    /// A span of `secs` seconds and `nanos` nanoseconds.
    pub fn new(secs: u64, nanos: u32) -> (r: Duration)
        ensures
            r.nanos == secs * NANOS_PER_SEC + nanos,
    {
        Duration { nanos: secs as u128 * NANOS_PER_SEC + nanos as u128 }
    }

    /// Whole seconds in the span, rounded down; `u64::MAX` if there are more than that.
    pub fn as_secs(self) -> (r: u64)
        ensures
            r == self.secs(),
    {
        let secs: u128 = self.nanos / NANOS_PER_SEC;
        if secs <= u64::MAX as u128 {
            secs as u64
        } else {
            u64::MAX
        }
    }

    /// `self - other`, or nothing if `other` is the longer span.
    pub fn checked_sub(self, other: Duration) -> (r: Option<Duration>)
        ensures
            r is Some <==> other.nanos <= self.nanos,
            r matches Some(d) ==> d == self.minus(other),
    {
        if other.nanos <= self.nanos {
            Some(Duration { nanos: self.nanos - other.nanos })
        } else {
            None
        }
    }

    /// `self - other`, or the empty span if `other` is the longer one.
    pub fn saturating_sub(self, other: Duration) -> (r: Duration)
        ensures
            r == self.minus(other),
    {
        if other.nanos <= self.nanos {
            Duration { nanos: self.nanos - other.nanos }
        } else {
            Duration { nanos: 0 }
        }
    }
}

/// An instant of tokio's clock; nothing is known of what it holds.
#[verifier::external_type_specification]
#[verifier::external_body]
pub struct ExTokioInstant(tokio::time::Instant);

/// `tokio::time::Instant::now`: some point in time, of which nothing is claimed.
pub assume_specification[ tokio::time::Instant::now ]() -> tokio::time::Instant
;

/// Nanoseconds from `earlier` to `later`, as `tokio::time::Instant::duration_since` counts them.
pub uninterp spec fn nanos_between(
    later: tokio::time::Instant,
    earlier: tokio::time::Instant,
) -> nat;

/// `tokio::time::Instant::duration_since`: the time from `earlier` to `later` as whole seconds
/// and the nanoseconds beyond them, which are fewer than a second. It depends on the two
/// instants alone; which span two given instants have is not stated, as nothing is known of
/// what an instant holds.
#[verifier::external_body]
fn time_between(later: &tokio::time::Instant, earlier: tokio::time::Instant) -> (r: (u64, u32))
    ensures
        r.1 < 1_000_000_000,
        r.0 * NANOS_PER_SEC + r.1 == nanos_between(*later, earlier),
{
    let span = later.duration_since(earlier);
    (span.as_secs(), span.subsec_nanos())
}

/// A monotonic clock that counts from the moment it was made.
#[derive(Debug, Clone, Copy)]
pub struct Clock {
    origin: tokio::time::Instant,
}

impl Clock {
    /// `moment` lies as far after the origin as some instant does: this clock can read it.
    pub closed spec fn reads(self, moment: Moment) -> bool {
        exists|instant: tokio::time::Instant|
            moment.nanos == #[trigger] nanos_between(instant, self.origin)
    }

    /// A clock that starts counting now. Nothing is stated of the instant at which it starts:
    /// it depends on when the call is made.
    pub fn new() -> Clock {
        Clock { origin: tokio::time::Instant::now() }
    }

    /// The current time: how long ago this clock started. Every reading lies between the origin
    /// and the largest value a clock can read; which one it is depends on when the call is made.
    /// That a later reading is no earlier moment holds of the clock underneath, but is not stated.
    pub fn now(&self) -> (r: Moment)
        ensures
            r.is_reading(),
            self.reads(r),
    {
        let instant: tokio::time::Instant = tokio::time::Instant::now();
        let (secs, nanos): (u64, u32) = time_between(&instant, self.origin);
        Moment::at(secs, nanos)
    }
}

impl Moment {
    /// A value that a clock can read.
    pub open spec fn is_reading(self) -> bool {
        0 <= self.nanos <= LATEST_READING
    }

    /// The point `d` after this one.
    pub open spec fn later(self, d: Duration) -> Moment {
        Moment { nanos: (self.nanos + d.nanos) as i128 }
    }

    /// Time from `earlier` to this point; empty if `earlier` is the later one.
    pub open spec fn since(self, earlier: Moment) -> Duration {
        Duration {
            nanos: if self.nanos >= earlier.nanos {
                (self.nanos - earlier.nanos) as u128
            } else {
                0
            },
        }
    }

    /// The point `d` before this one, where there is one.
    pub open spec fn earlier(self, d: Duration) -> Option<Moment> {
        if self.nanos - d.nanos >= i128::MIN {
            Some(Moment { nanos: (self.nanos - d.nanos) as i128 })
        } else {
            None
        }
    }

    /// The point `secs` seconds and `nanos` nanoseconds after the origin.
    pub fn at(secs: u64, nanos: u32) -> (r: Moment)
        ensures
            r.nanos == secs * NANOS_PER_SEC + nanos,
            nanos < 1_000_000_000 ==> r.is_reading(),
    {
        Moment { nanos: secs as i128 * 1_000_000_000 + nanos as i128 }
    }

    /// The point `d` after this one.
    pub fn plus(self, d: Duration) -> (r: Moment)
        requires
            self.nanos + d.nanos <= i128::MAX,
        ensures
            r == self.later(d),
            r.nanos == self.nanos + d.nanos,
    {
        Moment { nanos: self.nanos.checked_add_unsigned(d.nanos).unwrap() }
    }

    /// The point `d` before this one, if it can be represented.
    pub fn checked_sub(self, d: Duration) -> (r: Option<Moment>)
        ensures
            r == self.earlier(d),
    {
        match self.nanos.checked_sub_unsigned(d.nanos) {
            Some(nanos) => Some(Moment { nanos }),
            None => None,
        }
    }

    /// Time from `earlier` to this point; empty if `earlier` is the later one.
    pub fn duration_since(self, earlier: Moment) -> (r: Duration)
        ensures
            r == self.since(earlier),
    {
        if self.nanos < earlier.nanos {
            Duration { nanos: 0 }
        } else if earlier.nanos >= 0 || self.nanos < 0 {
            Duration { nanos: (self.nanos - earlier.nanos) as u128 }
        } else {
            let before: u128 = (-(earlier.nanos + 1)) as u128 + 1;
            Duration { nanos: before + self.nanos as u128 }
        }
    }
}

/// Spans are counted in nanoseconds: a second holds a thousand million of them. The whole seconds
/// of a span leave less than one over, as far as they can be counted. What is left of a span
/// and what has passed make up the whole, and nothing is left if more has passed.
pub proof fn law_spans_add_up(span: Duration, other: Duration, secs: nat)
    ensures
        secs <= u64::MAX ==> whole_secs(secs).nanos == secs * 1_000_000_000,
        span.nanos < 18_446_744_073_709_551_616 * 1_000_000_000 ==> span.secs() * 1_000_000_000
            <= span.nanos < (span.secs() + 1) * 1_000_000_000,
        span.nanos >= 18_446_744_073_709_551_616 * 1_000_000_000 ==> span.secs() == u64::MAX,
        span.nanos >= other.nanos ==> span.minus(other).nanos + other.nanos == span.nanos,
        span.nanos < other.nanos ==> span.minus(other).nanos == 0,
{
}

/// Going on from a moment and back again meets the same moment; the time since a moment that is
/// still to come is none. There is no moment before the first one.
pub proof fn law_moments_add_up(moment: Moment, other: Moment, span: Duration)
    ensures
        moment.nanos + span.nanos <= i128::MAX ==> {
            &&& moment.later(span).nanos == moment.nanos + span.nanos
            &&& moment.later(span).since(moment) == span
        },
        moment.nanos >= other.nanos ==> other.nanos + moment.since(other).nanos == moment.nanos,
        moment.nanos < other.nanos ==> moment.since(other).nanos == 0,
        moment.earlier(span) is Some <==> moment.nanos - span.nanos >= i128::MIN,
        moment.earlier(span) matches Some(before) ==> before.nanos + span.nanos == moment.nanos,
        moment.is_reading() <==> 0 <= moment.nanos < 18_446_744_073_709_551_616 * 1_000_000_000,
{
}

} // verus!
