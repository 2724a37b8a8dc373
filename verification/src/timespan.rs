use vstd::prelude::*;

verus! {

/// Nanoseconds in one second.
pub const NANOS_PER_SEC: u128 = 1_000_000_000;

/// The longest span a `std::time::Duration` can hold, in nanoseconds:
/// `u64::MAX` seconds plus 999_999_999 nanoseconds.
pub const MAX_NANOS: u128 = 18_446_744_073_709_551_615_999_999_999;

/// A span of time with nanosecond precision, covering exactly the range of
/// `std::time::Duration`. Its view is the number of nanoseconds it holds.
#[derive(Clone, Copy, Debug, PartialEq, Eq, Structural)]
pub struct TimeSpan {
    nanos: u128,
}

impl View for TimeSpan {
    type V = nat;

    closed spec fn view(&self) -> nat {
        self.nanos as nat
    }
}

impl TimeSpan {
    #[verifier::type_invariant]
    spec fn within_range(self) -> bool {
        self.nanos <= MAX_NANOS
    }

    /// A span of `secs` seconds and `nanos` nanoseconds; nanoseconds beyond
    /// one second carry into the seconds, as `Duration::new` does.
    pub fn new(secs: u64, nanos: u32) -> (t: TimeSpan)
        requires
            secs + nanos / 1_000_000_000 <= u64::MAX,
        ensures
            t@ == secs * 1_000_000_000 + nanos,
    {
        let total: u128 = (secs as u128) * NANOS_PER_SEC + (nanos as u128);
        proof {
            assert((secs as int) * 1_000_000_000 + (nanos as int) <= MAX_NANOS) by (nonlinear_arith)
                requires
                    secs + nanos / 1_000_000_000 <= u64::MAX,
                    nanos < 4_294_967_296int,
            {
            }
        }
        TimeSpan { nanos: total }
    }

    /// A span of `ms` milliseconds.
    pub fn from_millis(ms: u64) -> (t: TimeSpan)
        ensures
            t@ == ms * 1_000_000,
    {
        let total: u128 = (ms as u128) * 1_000_000;
        TimeSpan { nanos: total }
    }

    /// The whole seconds in this span.
    pub fn as_secs(&self) -> (s: u64)
        ensures
            s == self@ / 1_000_000_000,
    {
        proof {
            use_type_invariant(self);
        }
        (self.nanos / NANOS_PER_SEC) as u64
    }

    /// The nanoseconds beyond the whole seconds of this span.
    pub fn subsec_nanos(&self) -> (n: u32)
        ensures
            n == self@ % 1_000_000_000,
            n < 1_000_000_000,
    {
        (self.nanos % NANOS_PER_SEC) as u32
    }

    /// Whether this span is strictly longer than `other`.
    pub fn is_longer_than(&self, other: &TimeSpan) -> (longer: bool)
        ensures
            longer == (self@ > other@),
    {
        self.nanos > other.nanos
    }
}

} // verus!
