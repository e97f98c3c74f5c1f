//! Seedable random source, threaded explicitly through the targeting and
//! spawn policies so that every tick is reproducible under a fixed seed.
//!
//! The draws come from the `rand` crate behind trusted wrappers; each wrapper
//! states only what `rand` documents of every outcome, and the verified
//! policies take the drawn values from there.

use vstd::prelude::*;

use rand::Rng;
use rand::SeedableRng;

verus! {

#[verifier::external_type_specification]
#[verifier::external_body]
pub struct ExStdRng(rand::rngs::StdRng);

/// An injectable random source: a deterministic generator built from a seed.
pub struct GameRng {
    inner: rand::rngs::StdRng,
}

impl GameRng {
    /// Relies on rand's `StdRng::seed_from_u64`: builds a generator whose
    /// draws are a function of the seed alone.
    #[verifier::external_body]
    pub fn from_seed(seed: u64) -> GameRng {
        GameRng { inner: rand::rngs::StdRng::seed_from_u64(seed) }
    }

    /// Relies on rand's `Rng::gen_ratio`: true with probability `num/den`;
    /// by its documentation the result is always false at numerator zero and
    /// always true at numerator equal to denominator. Nothing more holds of
    /// a single draw.
    #[verifier::external_body]
    pub(crate) fn trial(&mut self, num: u32, den: u32) -> (r: bool)
        requires
            0 < den,
            num <= den,
        ensures
            num == 0 ==> r == false,
            num == den ==> r == true,
    {
        self.inner.gen_ratio(num, den)
    }

    /// Relies on rand's `Rng::gen_range` over a half-open range: the sample
    /// lies in `[lo, hi)`.
    #[verifier::external_body]
    pub(crate) fn range_i64(&mut self, lo: i64, hi: i64) -> (r: i64)
        requires
            lo < hi,
        ensures
            lo <= r < hi,
    {
        self.inner.gen_range(lo..hi)
    }

    /// Relies on rand's `Rng::gen_range` over a half-open range: the sample
    /// lies in `[lo, hi)`.
    #[verifier::external_body]
    pub(crate) fn range_u32(&mut self, lo: u32, hi: u32) -> (r: u32)
        requires
            lo < hi,
        ensures
            lo <= r < hi,
    {
        self.inner.gen_range(lo..hi)
    }
}

} // verus!
