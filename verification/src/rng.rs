//! The pseudo-random source. Spawn variability and sound choice draw from
//! a seedable generator injected by the host, so a run is reproducible
//! from its seed.

use vstd::prelude::*;

verus! {

/// rand's standard generator, carried opaquely through the simulation.
#[verifier::external_type_specification]
#[verifier::external_body]
pub struct ExStdRng(rand::rngs::StdRng);

/// Relies on rand's `Rng::gen_range` over a half-open integer range:
/// it panics on an empty range and otherwise returns a value inside it.
#[verifier::external_body]
pub(crate) fn rng_range(rng: &mut rand::rngs::StdRng, lo: i64, hi: i64) -> (r: i64)
    requires
        lo < hi,
    ensures
        lo <= r < hi,
{
    rand::Rng::gen_range(rng, lo..hi)
}

} // verus!
