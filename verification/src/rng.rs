//! The one source of randomness: the game engine's pseudo-random generator.

use vstd::prelude::*;

verus! {

/// Relies on macroquad::rand::gen_range (quad_rand::gen_range): for an
/// unsigned integer type it computes low + (high - low) * r in doubles,
/// with r drawn in [0, 1), and truncates back. Up to the bound below
/// every intermediate double is exact, so the result lies in low..high;
/// near u32::MAX the product could round up to high itself, which the
/// bound keeps out.
#[verifier::external_body]
pub(crate) fn gen_range_u32(low: u32, high: u32) -> (r: u32)
    requires
        low < high,
        high <= 2_000_000,
    ensures
        low <= r < high,
{
    macroquad::rand::gen_range(low, high)
}

} // verus!
