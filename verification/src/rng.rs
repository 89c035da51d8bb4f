//! The deterministic generator behind the procedural starfield and the
//! asteroid belt: a 64-bit linear congruential generator (Knuth's MMIX
//! constants) whose high 32 bits are the output.

use vstd::prelude::*;

verus! {

/// The multiplier of the generator.
pub const LCG_MULTIPLIER: u64 = 6364136223846793005;

/// The increment of the generator.
pub const LCG_INCREMENT: u64 = 1442695040888963407;

/// The state that follows `seed`.
pub open spec fn lcg_next(seed: u64) -> u64 {
    ((seed as nat * LCG_MULTIPLIER as nat + LCG_INCREMENT as nat) % 0x1_0000_0000_0000_0000) as u64
}

/// The output drawn from a state: its high 32 bits.
pub open spec fn lcg_output(state: u64) -> u32 {
    (state as nat / 0x1_0000_0000) as u32
}

/// Advances the generator state and returns the new state's high 32 bits;
/// dividing them by `u32::MAX` gives a value in `[0, 1]`.
pub fn advance_seed(seed: &mut u64) -> (sample: u32)
    ensures
        *final(seed) == lcg_next(*old(seed)),
        sample == lcg_output(*final(seed)),
{
    let old_seed = *seed;
    let product = old_seed.wrapping_mul(LCG_MULTIPLIER);
    let next = product.wrapping_add(LCG_INCREMENT);
    proof {
        let m: nat = 0x1_0000_0000_0000_0000;
        let p = old_seed as nat * LCG_MULTIPLIER as nat;
        assert(product as nat == p % m);
        vstd::arithmetic::div_mod::lemma_add_mod_noop(p as int, LCG_INCREMENT as int, m as int);
        vstd::arithmetic::div_mod::lemma_small_mod(LCG_INCREMENT as nat, m);
        if product as nat + LCG_INCREMENT as nat > u64::MAX {
            assert(next as nat == product as nat + LCG_INCREMENT as nat - m);
            let r = product as nat + LCG_INCREMENT as nat - m;
            vstd::arithmetic::div_mod::lemma_mod_add_multiples_vanish(r as int, m as int);
            vstd::arithmetic::div_mod::lemma_small_mod(r as nat, m);
        } else {
            vstd::arithmetic::div_mod::lemma_small_mod((product as nat + LCG_INCREMENT as nat), m);
        }
        vstd::arithmetic::div_mod::lemma_mod_twice(p as int, m as int);
    }
    *seed = next;
    let high = (next >> 32) as u32;
    assert(high == lcg_output(next)) by (bit_vector)
        requires
            high == (next >> 32) as u32,
    ;
    high
}

} // verus!
