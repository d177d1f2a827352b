//! Deterministic pseudo-random substrate: a bounded xorshift integer stream
//! (`XorRng64`) and a generator of independent sub-streams (`RngGenerator64`).
//!
//! Both are pure functions of their 64-bit seed, so every draw is pinned
//! exactly by the contracts below and any run is reproducible from its seeds.

use vstd::prelude::*;

verus! {

/// One xorshift step of the bounded stream: shift-left-13, shift-right-17,
/// shift-left-5, each folded in by exclusive-or.
pub open spec fn xor_step(s: u64) -> u64 {
    let a = s ^ (s << 13);
    let b = a ^ (a >> 17);
    b ^ (b << 5)
}

/// State of a bounded stream seeded with `seed` after `k` advances.
pub open spec fn xor_nth_state(seed: u64, k: nat) -> u64
    decreases k,
{
    if k == 0 {
        seed
    } else {
        xor_step(xor_nth_state(seed, (k - 1) as nat))
    }
}

/// The `k`-th value (0-indexed) drawn with bound `range` from a bounded
/// stream seeded with `seed`: the stream advances before it reduces.
pub open spec fn xor_nth_value(seed: u64, k: nat, range: u64) -> u64
    recommends
        range > 0,
{
    xor_nth_state(seed, k + 1) % range
}

/// One xorshift step of the stream generator: shift-right-12, shift-left-25,
/// shift-right-27, each folded in by exclusive-or. Distinct from `xor_step`
/// so that derived sub-streams do not correlate with bounded draws.
pub open spec fn gen_step(s: u64) -> u64 {
    let a = s ^ (s >> 12);
    let b = a ^ (a << 25);
    b ^ (b >> 27)
}

/// State of a stream generator seeded with `seed` after `k` advances.
pub open spec fn gen_nth_state(seed: u64, k: nat) -> u64
    decreases k,
{
    if k == 0 {
        seed
    } else {
        gen_step(gen_nth_state(seed, (k - 1) as nat))
    }
}

/// The bounded stream freshly seeded with `seed`.
pub open spec fn xor_rng_with_seed(seed: u64) -> XorRng64 {
    XorRng64 { initial_seed: seed, state: seed }
}

/// A seeded, reproducible bounded pseudo-random integer stream.
#[derive(Debug, Clone, Copy)]
pub struct XorRng64 {
    pub initial_seed: u64,
    pub state: u64,
}

impl XorRng64 {
    pub fn new(initial_seed: u64) -> (r: Self)
        ensures
            r == xor_rng_with_seed(initial_seed),
    {
        XorRng64 { initial_seed, state: initial_seed }
    }

    /// Advance the stream one xorshift step and return the new state reduced
    /// modulo `range`. Every value is strictly below `range`, and both the
    /// value and the new state are exact functions of the previous state.
    pub fn next(&mut self, range: u64) -> (r: u64)
        requires
            range > 0,
        ensures
            final(self).state == xor_step(old(self).state),
            final(self).initial_seed == old(self).initial_seed,
            r == xor_step(old(self).state) % range,
            r < range,
    {
        let mut new_state = self.state;
        new_state ^= new_state << 13;
        new_state ^= new_state >> 17;
        new_state ^= new_state << 5;

        self.state = new_state;
        new_state % range
    }
}

/// A generator of independent bounded streams: each `next` advances its own
/// xorshift state and mints a fresh `XorRng64` keyed with the new state.
#[derive(Debug, Clone, Copy)]
pub struct RngGenerator64 {
    pub initial_seed: u64,
    pub state: u64,
}

impl RngGenerator64 {
    pub fn new(initial_state: u64) -> (r: Self)
        ensures
            r.initial_seed == initial_state,
            r.state == initial_state,
    {
        Self { initial_seed: initial_state, state: initial_state }
    }

    /// Derive the next sub-stream. The generator is a pure deterministic
    /// sequence: the sub-stream returned is an exact function of the
    /// generator's previous state.
    pub fn next(&mut self) -> (r: XorRng64)
        ensures
            final(self).state == gen_step(old(self).state),
            final(self).initial_seed == old(self).initial_seed,
            r == xor_rng_with_seed(gen_step(old(self).state)),
    {
        let mut next_state = self.state;
        next_state ^= next_state >> 12;
        next_state ^= next_state << 25;
        next_state ^= next_state >> 27;

        self.state = next_state;
        XorRng64::new(next_state)
    }
}

/// Determinism of the bounded stream: the `k`-th value drawn with a given
/// bound is a fixed function of the seed alone, so two streams started from
/// the same seed produce the same values in the same order on every run.
pub proof fn lemma_stream_deterministic(seed1: u64, seed2: u64, k: nat, range: u64)
    requires
        seed1 == seed2,
        range > 0,
    ensures
        xor_nth_state(seed1, k) == xor_nth_state(seed2, k),
        xor_nth_value(seed1, k, range) == xor_nth_value(seed2, k, range),
{
}

/// Determinism of the sub-stream generator: the `k`-th sub-stream derived
/// from a given seed is fixed by the seed alone, so two generators started
/// from the same seed yield the same sub-streams in the same order.
pub proof fn lemma_generator_deterministic(seed1: u64, seed2: u64, k: nat)
    requires
        seed1 == seed2,
    ensures
        gen_nth_state(seed1, k) == gen_nth_state(seed2, k),
        xor_rng_with_seed(gen_nth_state(seed1, k)) == xor_rng_with_seed(gen_nth_state(seed2, k)),
{
}

} // verus!
