//! The deterministic linear congruential generator that seeds every random
//! choice of the world: star fields, planets and asteroids.
use vstd::prelude::*;
use vstd::arithmetic::div_mod::{lemma_add_mod_noop, lemma_small_mod, lemma_mod_bound};

verus! {

/// Multiplier of the generator (Knuth's MMIX constant).
pub const LCG_MUL: u64 = 6364136223846793005;

/// Increment of the generator.
pub const LCG_INC: u64 = 1442695040888963407;

/// The state that follows `seed`: `seed * LCG_MUL + LCG_INC` modulo 2^64.
pub open spec fn lcg_next(seed: u64) -> u64 {
    ((seed as int * LCG_MUL as int + LCG_INC as int) % 0x1_0000_0000_0000_0000) as u64
}

/// The 31 bits that one draw hands out: the top bits of the new state.
pub open spec fn lcg_output(state: u64) -> u32 {
    (state as int / 0x2_0000_0000) as u32
}

/// Adding `c` after reducing `m` modulo `r`, and reducing again by one
/// subtraction, is reducing `m + c` modulo `r`.
proof fn lemma_wrapping_add_of_mod(m: int, c: int, r: int)
    requires
        0 < r,
        0 <= c < r,
    ensures
        ({
            let p = m % r;
            if p + c >= r { p + c - r } else { p + c }
        }) == (m + c) % r,
{
    let p = m % r;
    lemma_mod_bound(m, r);
    lemma_small_mod(c as nat, r as nat);
    lemma_add_mod_noop(m, c, r);
    if p + c >= r {
        lemma_small_mod((p + c - r) as nat, r as nat);
        lemma_add_mod_noop(p + c - r, r, r);
        lemma_small_mod(0, r as nat);
        assert(r % r == 0) by {
            lemma_add_mod_noop(0, r, r);
            vstd::arithmetic::div_mod::lemma_mod_self_0(r);
        }
    } else {
        lemma_small_mod((p + c) as nat, r as nat);
    }
}

/// Advances `seed` by one step and returns the top 31 bits of the new state
/// (`seed >> 33`); dividing by `u32::MAX` gives the draw in `[0, 0.5]`.
pub fn lcg_step(seed: &mut u64) -> (bits: u32)
    ensures
        *final(seed) == lcg_next(*old(seed)),
        bits == lcg_output(*final(seed)),
        bits < 0x8000_0000,
{
    let product = seed.wrapping_mul(LCG_MUL);
    let next = product.wrapping_add(LCG_INC);
    proof {
        lemma_wrapping_add_of_mod(
            *old(seed) as int * LCG_MUL as int,
            LCG_INC as int,
            0x1_0000_0000_0000_0000,
        );
    }
    *seed = next;
    assert(next >> 33u64 == next / 0x2_0000_0000u64) by (bit_vector);
    assert(next >> 33u64 < 0x8000_0000u64) by (bit_vector);
    (next >> 33u64) as u32
}

} // verus!
