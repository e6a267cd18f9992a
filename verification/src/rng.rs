//! Per-pixel random number generation, backed by rand's `SmallRng`.
//!
//! A seeded generator's output stream is a function of its seed alone, so
//! the stream is given a name, `stream_of`, and a `SeededRng` carries its
//! seed and its position in the stream as ghost state. Contracts downstream
//! can then say exactly which uniform values a computation consumed, which
//! is what makes seeded rendering reproducible by contract and not only by
//! observation. No concrete value of the stream is ever assumed.

use crate::fx::{Fx, FX_ONE};
use rand::RngCore;
use rand::SeedableRng;
use vstd::prelude::*;

verus! {

#[verifier::external_type_specification]
#[verifier::external_body]
pub struct ExSmallRng(rand::rngs::SmallRng);

/// The `i`-th 64-bit output of a generator seeded with `seed`.
pub uninterp spec fn stream_of(seed: u64, i: int) -> u64;

/// A generator together with its seed and the index of its next output.
pub struct SeededRng {
    inner: rand::rngs::SmallRng,
    seed: Ghost<u64>,
    next_i: Ghost<int>,
}

impl SeededRng {
    /// The seed whose stream this generator produces.
    pub closed spec fn seed(&self) -> u64 {
        self.seed@
    }

    /// The position of the generator's next output in that stream.
    pub closed spec fn next_i(&self) -> int {
        self.next_i@
    }
}

/// Relies on rand's `SeedableRng::seed_from_u64`: the generator it builds is
/// a function of the 64-bit seed alone.
#[verifier::external_body]
fn small_rng_from_seed(seed: u64) -> rand::rngs::SmallRng {
    rand::rngs::SmallRng::seed_from_u64(seed)
}

/// A generator at position zero of the given seed's stream.
pub fn rng_from_seed(seed: u64) -> (r: SeededRng)
    ensures
        r.seed() == seed,
        r.next_i() == 0,
{
    SeededRng { inner: small_rng_from_seed(seed), seed: Ghost(seed), next_i: Ghost(0int) }
}

/// Relies on rand's `RngCore::next_u64`: advancing the generator yields the
/// next output of its seed's stream, deterministically.
#[verifier::external_body]
pub fn rng_next(rng: &mut SeededRng) -> (r: u64)
    ensures
        r == stream_of(old(rng).seed(), old(rng).next_i()),
        final(rng).seed() == old(rng).seed(),
        final(rng).next_i() == old(rng).next_i() + 1,
{
    rng.inner.next_u64()
}

/// Relies on `rand::random`: a fresh, unpredictable 64-bit value for seeding
/// a frame. Nothing is assumed about the value.
#[verifier::external_body]
pub fn random_seed_value() -> u64 {
    rand::random()
}

/// The uniform fixed-point value in `[0, 1)` drawn from position `i` of a
/// seed's stream: its top 16 bits.
pub open spec fn unit_fx_s(seed: u64, i: int) -> int {
    (stream_of(seed, i) >> 48) as int
}

/// Every drawn unit value lies in `[0, 1)`.
pub proof fn lemma_unit_fx_range(seed: u64, i: int)
    ensures
        0 <= unit_fx_s(seed, i) < FX_ONE,
{
    let x = stream_of(seed, i);
    assert(x >> 48 < 65536) by (bit_vector);
}

/// A uniform fixed-point sample in `[0, 1)`: the top 16 bits of the
/// generator's next output.
pub fn rng_unit(rng: &mut SeededRng) -> (r: Fx)
    ensures
        0 <= r@ < FX_ONE,
        r@ == unit_fx_s(old(rng).seed(), old(rng).next_i()),
        final(rng).seed() == old(rng).seed(),
        final(rng).next_i() == old(rng).next_i() + 1,
{
    let u: u64 = rng_next(rng);
    let hi: u64 = u >> 48;
    proof {
        assert(u >> 48 < 65536) by (bit_vector);
    }
    Fx { raw: hi as i64 }
}

} // verus!
