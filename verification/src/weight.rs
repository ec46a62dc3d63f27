//! The weight of a piece of work: the time it takes to run and the size of
//! the proof it needs, both as plain integers.
use vstd::prelude::*;

verus! {

/// A weight: computation time (`ref_time`) and proof size (`proof_size`).
#[derive(Clone, Copy, Debug, PartialEq, Eq, Structural)]
pub struct Weight {
    pub ref_time: u64,
    pub proof_size: u64,
}

/// `a + b`, or `u64::MAX` where the sum does not fit.
pub open spec fn saturating_sum(a: u64, b: u64) -> u64 {
    if a + b > u64::MAX {
        u64::MAX
    } else {
        (a + b) as u64
    }
}

impl Weight {
    /// The weight with the given computation time and proof size.
    pub fn from_parts(ref_time: u64, proof_size: u64) -> (w: Weight)
        ensures
            w.ref_time == ref_time,
            w.proof_size == proof_size,
    {
        Weight { ref_time, proof_size }
    }

    /// The weight of nothing.
    pub fn zero() -> (w: Weight)
        ensures
            w.ref_time == 0,
            w.proof_size == 0,
    {
        Weight { ref_time: 0, proof_size: 0 }
    }

    /// The computation time.
    pub fn ref_time(&self) -> (r: u64)
        ensures
            r == self.ref_time,
    {
        self.ref_time
    }

    /// The proof size.
    pub fn proof_size(&self) -> (r: u64)
        ensures
            r == self.proof_size,
    {
        self.proof_size
    }

    /// Adds two weights part by part; a part that does not fit is `u64::MAX`.
    pub fn saturating_add(self, other: Weight) -> (w: Weight)
        ensures
            w.ref_time == saturating_sum(self.ref_time, other.ref_time),
            w.proof_size == saturating_sum(self.proof_size, other.proof_size),
    {
        Weight {
            ref_time: self.ref_time.saturating_add(other.ref_time),
            proof_size: self.proof_size.saturating_add(other.proof_size),
        }
    }
}

} // verus!
