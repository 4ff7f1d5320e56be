//! Draws from the thread-local random generator of the `rand` crate.
use vstd::prelude::*;

verus! {

/// The chance of a coin coming up heads: `numerator` in `denominator`.
#[derive(Debug, Clone, Copy, PartialEq, Eq, Structural)]
pub struct Odds {
    pub numerator: u32,
    pub denominator: u32,
}

/// A flipped coin and the odds it was flipped with.
#[derive(Debug, Clone, Copy, PartialEq, Eq, Structural)]
pub struct Coin {
    pub heads: bool,
    pub odds: Odds,
}

/// Calls `rand::Rng::gen_ratio` on `rand::thread_rng()`: heads with
/// probability `numerator / denominator`; the coin carries the odds it was
/// flipped with.  The crate rejects (with a panic) a zero denominator or a
/// numerator above it; for a zero numerator it never answers true, and for a
/// numerator equal to the denominator it always does.  Nothing else is
/// claimed of the outcome.
#[verifier::external_body]
pub(crate) fn chance(numerator: u32, denominator: u32) -> (c: Coin)
    requires
        0 < denominator,
        numerator <= denominator,
    ensures
        c.odds == (Odds { numerator, denominator }),
        numerator == 0 ==> !c.heads,
        numerator == denominator ==> c.heads,
{
    Coin {
        heads: rand::Rng::gen_ratio(&mut rand::thread_rng(), numerator, denominator),
        odds: Odds { numerator, denominator },
    }
}

/// Calls `rand::Rng::gen_range(0..len)` on `rand::thread_rng()`: an index
/// below `len`.  The crate panics on an empty range, so `len` must be
/// positive.  Which index comes out is not claimed.
#[verifier::external_body]
pub(crate) fn random_index(len: usize) -> (i: usize)
    requires
        len > 0,
    ensures
        i < len,
{
    rand::Rng::gen_range(&mut rand::thread_rng(), 0..len)
}

} // verus!
