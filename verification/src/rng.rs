//! The random piece source: an operating-system entropy seed feeding a
//! small PCG generator, reduced to a shape index in `[0, 7)`. The
//! generator and the entropy call are outside code trusted through the
//! contracts below; everything the engine concludes from a draw holds
//! for every value the generator could return.

use vstd::prelude::*;

use crate::figure::{fig_wf, is_spawn_figure, Figure, PieceType};

verus! {

#[verifier::external_type_specification]
#[verifier::external_body]
pub struct ExRand32(oorandom::Rand32);

/// Relies on getrandom::getrandom, which fills the buffer with
/// operating-system entropy and reports failure with an error value.
/// Returns the eight bytes as one word, or `None` when the entropy
/// source failed. Nothing is promised of the value: it is random.
#[verifier::external_body]
fn os_entropy_seed() -> Option<u64> {
    let mut buf = [0u8; 8];
    match getrandom::getrandom(&mut buf) {
        Ok(()) => Some(u64::from_ne_bytes(buf)),
        Err(_) => None,
    }
}

/// Relies on oorandom::Rand32::new, which builds a generator from a
/// seed. Nothing is promised of the generator's state.
#[verifier::external_body]
fn rng_new(seed: u64) -> oorandom::Rand32 {
    oorandom::Rand32::new(seed)
}

/// Relies on oorandom::Rand32::rand_range, which produces a value in
/// the given half-open range; its code requires the range to be
/// nonempty. Which value comes back is random, so only the range is
/// promised.
#[verifier::external_body]
fn rng_below(rng: &mut oorandom::Rand32, n: u32) -> (r: u32)
    requires
        n >= 1,
    ensures
        r < n,
{
    rng.rand_range(0..n)
}

/// Draws a shape index in `[0, 7)`: a fresh generator is seeded from
/// operating-system entropy (or from a fixed word when the entropy
/// source fails) and asked for one bounded value.
pub fn random_piece_index() -> (r: u32)
    ensures
        r < 7,
{
    let seed: u64 = match os_entropy_seed() {
        Some(s) => s,
        None => 0,
    };
    let mut rng = rng_new(seed);
    rng_below(&mut rng, 7)
}

/// Draws a random shape and builds its canonical spawn figure.
pub fn random_figure() -> (f: Figure)
    ensures
        fig_wf(f),
        is_spawn_figure(f),
{
    let n = random_piece_index();
    let t = PieceType::from_index(n);
    Figure::new(t)
}

} // verus!
