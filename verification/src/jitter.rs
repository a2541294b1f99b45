//! The jitter factor of a backoff and where it comes from.

use vstd::prelude::*;

verus! {

/// The number of parts that make a jitter factor of exactly one.
pub const JITTER_SCALE: u32 = 1_000_000_000;

/// A factor by which a backoff is scaled, held in billionths.
///
/// A factor below one shortens the backoff, so that clients that failed together do not
/// retry together.
#[derive(Clone, Copy, Debug, PartialEq, Eq, Structural)]
pub struct Jitter {
    parts: u32,
}

impl View for Jitter {
    type V = nat;

    /// The factor in billionths: `JITTER_SCALE` stands for one.
    closed spec fn view(&self) -> nat {
        self.parts as nat
    }
}

impl Jitter {
    /// The factor `parts / 1_000_000_000`.
    pub fn from_parts_per_billion(parts: u32) -> (jitter: Jitter)
        ensures
            jitter@ == parts,
    {
        Jitter { parts }
    }

    /// The factor one, which leaves a backoff as it is.
    pub fn one() -> (jitter: Jitter)
        ensures
            jitter@ == JITTER_SCALE,
    {
        Jitter { parts: JITTER_SCALE }
    }

    /// This factor in billionths.
    pub fn parts_per_billion(&self) -> (parts: u32)
        ensures
            parts == self@,
    {
        self.parts
    }
}

/// Where the jitter factor of each backoff comes from.
#[derive(Clone, Copy, Debug, PartialEq, Eq, Structural)]
pub enum JitterBase {
    /// A fresh factor for every backoff, drawn uniformly from the factors below one.
    Random,
    /// The same factor for every backoff.
    Fixed(Jitter),
}

impl JitterBase {
    /// Whether a draw from this source can give `jitter`.
    pub open spec fn yields(self, jitter: Jitter) -> bool {
        match self {
            JitterBase::Random => jitter@ < JITTER_SCALE,
            JitterBase::Fixed(fixed) => jitter@ == fixed@,
        }
    }

    /// Draws the factor for one backoff.
    pub fn draw(&self) -> (jitter: Jitter)
        ensures
            self.yields(jitter),
    {
        match self {
            JitterBase::Random => Jitter::from_parts_per_billion(random_below(JITTER_SCALE)),
            JitterBase::Fixed(fixed) => *fixed,
        }
    }
}

/// `fastrand::u32` on the range `0..bound` returns a number of that range, taken from the
/// thread's generator; it panics on an empty range, which `bound > 0` rules out. Nothing is
/// claimed about which number comes back.
#[verifier::external_body]
fn random_below(bound: u32) -> (n: u32)
    requires
        bound > 0,
    ensures
        n < bound,
{
    fastrand::u32(0..bound)
}

} // verus!
