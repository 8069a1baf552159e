//! A span of time with nanosecond precision, and points in time measured as
//! spans since a clock's origin.
use vstd::prelude::*;

verus! {

/// The number of nanoseconds in one second.
pub open spec fn nanos_per_sec() -> nat {
    1_000_000_000
}

/// The longest representable span: `u64::MAX` seconds and 999,999,999 nanoseconds.
pub open spec fn max_nanos() -> nat {
    18_446_744_073_709_551_615_999_999_999
}

/// A span of time with nanosecond precision, as long as `u64::MAX` seconds.
#[derive(Debug, Clone, Copy, PartialEq, Eq, Structural)]
pub struct Duration {
    nanos: u128,
}

impl View for Duration {
    type V = nat;

    /// The span in nanoseconds.
    closed spec fn view(&self) -> nat {
        self.nanos as nat
    }
}

impl Duration {
    #[verifier::type_invariant]
    spec fn fits(self) -> bool {
        self.nanos <= max_nanos()
    }

    /// The empty span.
    pub fn zero() -> (d: Duration)
        ensures
            d@ == 0,
    {
        Duration { nanos: 0 }
    }

    /// A span of whole seconds.
    pub fn from_secs(secs: u64) -> (d: Duration)
        ensures
            d@ == secs * nanos_per_sec(),
    {
        assert(secs * 1_000_000_000u128 <= max_nanos()) by (nonlinear_arith)
            requires secs <= u64::MAX;
        Duration { nanos: secs as u128 * 1_000_000_000u128 }
    }

    /// A span of whole milliseconds.
    pub fn from_millis(millis: u64) -> (d: Duration)
        ensures
            d@ == millis * 1_000_000,
    {
        assert(millis * 1_000_000u128 <= max_nanos()) by (nonlinear_arith)
            requires millis <= u64::MAX;
        Duration { nanos: millis as u128 * 1_000_000u128 }
    }

    /// A span of whole nanoseconds.
    pub fn from_nanos(nanos: u64) -> (d: Duration)
        ensures
            d@ == nanos,
    {
        Duration { nanos: nanos as u128 }
    }

    /// A span of whole nanoseconds, given as a 128-bit count.
    pub fn from_total_nanos(nanos: u128) -> (d: Duration)
        requires
            nanos <= max_nanos(),
        ensures
            d@ == nanos,
    {
        Duration { nanos }
    }

    /// Whether the span is empty.
    pub fn is_zero(&self) -> (r: bool)
        ensures
            r == (self@ == 0),
    {
        self.nanos == 0
    }

    /// The number of whole seconds in the span.
    pub fn as_secs(&self) -> (s: u64)
        ensures
            s == self@ / nanos_per_sec(),
    {
        proof {
            use_type_invariant(self);
        }
        (self.nanos / 1_000_000_000u128) as u64
    }

    /// The number of whole milliseconds in the span.
    pub fn as_millis(&self) -> (m: u128)
        ensures
            m == self@ / 1_000_000,
    {
        self.nanos / 1_000_000u128
    }

    /// The span in nanoseconds.
    pub fn as_nanos(&self) -> (n: u128)
        ensures
            n == self@,
            n <= max_nanos(),
    {
        proof {
            use_type_invariant(self);
        }
        self.nanos
    }

    /// The sum of two spans, or the longest span if the sum does not fit.
    pub fn saturating_add(self, other: Duration) -> (d: Duration)
        ensures
            d@ == sat_add(self@, other@),
    {
        proof {
            use_type_invariant(self);
            use_type_invariant(other);
        }
        let sum = self.nanos + other.nanos;
        if sum > 18_446_744_073_709_551_615_999_999_999u128 {
            Duration { nanos: 18_446_744_073_709_551_615_999_999_999u128 }
        } else {
            Duration { nanos: sum }
        }
    }

    /// The sum of two spans, or `None` if it does not fit.
    pub fn checked_add(self, other: Duration) -> (d: Option<Duration>)
        ensures
            d is Some <==> self@ + other@ <= max_nanos(),
            d matches Some(x) ==> x@ == self@ + other@,
    {
        proof {
            use_type_invariant(self);
            use_type_invariant(other);
        }
        let sum = self.nanos + other.nanos;
        if sum > 18_446_744_073_709_551_615_999_999_999u128 {
            None
        } else {
            Some(Duration { nanos: sum })
        }
    }

    /// The difference of two spans, or the empty span if `other` is longer.
    pub fn saturating_sub(self, other: Duration) -> (d: Duration)
        ensures
            d@ == if self@ >= other@ { (self@ - other@) as nat } else { 0 },
    {
        proof {
            use_type_invariant(self);
        }
        if self.nanos >= other.nanos {
            Duration { nanos: self.nanos - other.nanos }
        } else {
            Duration { nanos: 0 }
        }
    }

    /// Whether this span is strictly longer than `other`.
    pub fn longer_than(&self, other: &Duration) -> (r: bool)
        ensures
            r == (self@ > other@),
    {
        self.nanos > other.nanos
    }

    /// The longer of two spans.
    pub fn max(self, other: Duration) -> (d: Duration)
        ensures
            d@ == if self@ >= other@ { self@ } else { other@ },
    {
        if self.nanos >= other.nanos {
            self
        } else {
            other
        }
    }

    /// The span divided into `parts` equal parts, rounded down to the nanosecond.
    pub fn div(self, parts: u64) -> (d: Duration)
        requires
            parts > 0,
        ensures
            d@ == self@ / (parts as nat),
    {
        proof {
            use_type_invariant(self);
        }
        let q = self.nanos / (parts as u128);
        assert(q <= self.nanos) by (nonlinear_arith)
            requires q == self.nanos / (parts as u128), parts > 0;
        Duration { nanos: q }
    }
}

impl Default for Duration {
    /// The empty span.
    fn default() -> (d: Duration)
        ensures
            d@ == 0,
    {
        Duration::zero()
    }
}

/// Addition that stops at the longest representable span.
pub open spec fn sat_add(a: nat, b: nat) -> nat {
    if a + b > max_nanos() { max_nanos() } else { a + b }
}

} // verus!
