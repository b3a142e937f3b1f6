//! The one source of randomness: the process-wide generator that the game
//! framework keeps, and that whoever wants repeatable results seeds before
//! sampling.

use vstd::prelude::*;

verus! {

/// One draw from macroquad's process-wide generator:
/// `macroquad::rand::rand()`, which advances the generator and returns 32
/// bits. The value depends on the last seed and on every draw since, so
/// nothing is claimed of it: every function that draws is verified for all
/// outcomes.
#[verifier::external_body]
fn random_u32() -> u32 {
    macroquad::rand::rand()
}

/// 64 random bits, made of two draws: the first gives the upper half, the
/// second the lower. Each draw can be any 32 bits, so the result can be any
/// 64 bits, and nothing is claimed of it.
pub(crate) fn random_u64() -> u64 {
    let high: u32 = random_u32();
    let low: u32 = random_u32();
    join(high, low)
}

/// The 64 bits whose upper half is `high` and whose lower half is `low`.
pub(crate) fn join(high: u32, low: u32) -> (r: u64)
    ensures
        r == high * 0x1_0000_0000 + low,
{
    (high as u64) * 0x1_0000_0000 + low as u64
}

} // verus!
