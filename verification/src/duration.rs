//! A span of time with nanosecond resolution, as the limit and circuit
//! adapters pass lease and retention lengths.
use vstd::prelude::*;

verus! {

pub const NANOS_PER_SEC: u32 = 1_000_000_000;
pub const NANOS_PER_MILLI: u32 = 1_000_000;

/// Whole seconds and the nanoseconds below one second.
#[derive(Clone, Copy, Debug, PartialEq, Eq)]
pub struct Duration {
    secs: u64,
    nanos: u32,
}

impl View for Duration {
    /// The length in nanoseconds.
    type V = nat;

    closed spec fn view(&self) -> nat {
        (self.secs * 1_000_000_000 + self.nanos) as nat
    }
}

impl Duration {
    #[verifier::type_invariant]
    closed spec fn wf(self) -> bool {
        self.nanos < NANOS_PER_SEC
    }

    /// The empty span.
    pub fn zero() -> (d: Duration)
        ensures
            d@ == 0,
    {
        Duration { secs: 0, nanos: 0 }
    }

    pub fn from_secs(secs: u64) -> (d: Duration)
        ensures
            d@ == secs * 1_000_000_000,
    {
        Duration { secs, nanos: 0 }
    }

    pub fn from_millis(millis: u64) -> (d: Duration)
        ensures
            d@ == millis * 1_000_000,
    {
        let secs = millis / 1000;
        let rest = (millis % 1000) as u32;
        let nanos = rest * NANOS_PER_MILLI;
        proof {
            assert(millis == secs * 1000 + rest) by (nonlinear_arith)
                requires secs == millis / 1000, rest == millis % 1000;
            assert(millis * 1_000_000 == secs * 1_000_000_000 + rest * 1_000_000) by (nonlinear_arith)
                requires millis == secs * 1000 + rest;
        }
        Duration { secs, nanos }
    }

    /// A span of `secs` seconds and `nanos` nanoseconds; nanoseconds of a whole
    /// second or more carry into the seconds.
    pub fn new(secs: u64, nanos: u32) -> (d: Duration)
        requires
            secs + nanos / 1_000_000_000 <= u64::MAX,
        ensures
            d@ == secs * 1_000_000_000 + nanos,
    {
        let carry = (nanos / NANOS_PER_SEC) as u64;
        let rest = nanos % NANOS_PER_SEC;
        proof {
            assert(nanos == carry * 1_000_000_000 + rest) by (nonlinear_arith)
                requires carry == nanos / 1_000_000_000, rest == nanos % 1_000_000_000;
            assert((secs + carry) * 1_000_000_000 + rest == secs * 1_000_000_000 + nanos) by (nonlinear_arith)
                requires nanos == carry * 1_000_000_000 + rest;
        }
        Duration { secs: secs + carry, nanos: rest }
    }

    pub fn is_zero(&self) -> (b: bool)
        ensures
            b == (self@ == 0),
    {
        proof { use_type_invariant(self); }
        self.secs == 0 && self.nanos == 0
    }

    /// The whole milliseconds in the span, rounded down.
    pub fn as_millis(&self) -> (ms: u128)
        ensures
            ms == self@ / 1_000_000,
    {
        proof { use_type_invariant(self); }
        let whole = self.secs as u128 * 1000;
        let part = (self.nanos / NANOS_PER_MILLI) as u128;
        proof {
            let s = self.secs as int;
            let n = self.nanos as int;
            assert((s * 1_000_000_000 + n) / 1_000_000 == s * 1000 + n / 1_000_000) by (nonlinear_arith)
                requires 0 <= n < 1_000_000_000, s >= 0;
        }
        whole + part
    }
}

} // verus!
