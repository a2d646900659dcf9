//! The engines, and the seeding scheme they share.
//!
//! Every engine is seeded the same way: the seed is folded into 64 bits and
//! xor-ed with a fixed odd constant, the result starts a SplitMix64 stream, and
//! the engine's state words are drawn from that stream.
use vstd::arithmetic::div_mod::{lemma_mul_mod_noop_general, lemma_small_mod};
use vstd::prelude::*;
use crate::algorithms::splitmix::splitmix64_mix;
use crate::smol_core::{spec_nth_draw, Algorithm, AlgorithmOutput, PRNG};

pub mod jsf;
pub mod lcg;
pub mod middle_square;
pub mod rotate;
pub mod scf32;
pub mod splitmix;
pub mod step_generators;
pub mod xoroshiro;
pub mod xorshift;
pub mod xoshiro;

pub use jsf::JsfLarge;
pub use lcg::LCG;
pub use middle_square::MiddleSquare;
pub use scf32::{Sfc32, Sfc32Small};
pub use splitmix::{SplitMix32, SplitMix64};
pub use step_generators::{
    StepGenerator128, StepGenerator16, StepGenerator32, StepGenerator64, StepGenerator8,
};
pub use xoroshiro::{XoroShiro128Plus, XoroShiro128PlusPlus, XoroShiro128SuperStar};
pub use xorshift::{XorShift128, XorShift128Plus, XorShift32, XorShift64};
pub use xoshiro::{XoShiro256Plus, XoShiro256PlusPlus, XoShiro256SuperStar};

verus! {

/// The odd constant that every seed is xor-ed with.
pub const SEED_MASK: u64 = 0x43d0f2c5f0c7e0a5;

/// The seeding stream for a seed whose widened value is `seed`: the low 64
/// bits of the seed, xor-ed with the seed mask.
pub open spec fn spec_stream(seed: u128) -> SplitMix64 {
    SplitMix64 { data: SEED_MASK ^ (seed as u64) }
}

/// The seeding stream used when no seed is given.
pub open spec fn spec_default_stream() -> SplitMix64 {
    SplitMix64 { data: SEED_MASK }
}

/// Makes the seeding stream for `value`.
pub fn make_stream<T: AlgorithmOutput>(value: T) -> (stream: SplitMix64)
    ensures
        stream == spec_stream(value.spec_value()),
{
    SplitMix64 { data: SEED_MASK ^ value.cast_to_u64() }
}

/// Makes the default seeding stream.
pub fn make_default_stream() -> (stream: SplitMix64)
    ensures
        stream == spec_default_stream(),
{
    SplitMix64 { data: SEED_MASK }
}

/// Draws one `u8` of state from a seeding stream.
pub fn make_1_u8(prng: PRNG<SplitMix64>) -> (r: u8)
    ensures
        r as u128 == spec_nth_draw(prng.generator, 1, 0),
{
    let mut prng = prng;
    prng.gen_u8()
}

/// Draws one `u16` of state from a seeding stream.
pub fn make_1_u16(prng: PRNG<SplitMix64>) -> (r: u16)
    ensures
        r as u128 == spec_nth_draw(prng.generator, 2, 0),
{
    let mut prng = prng;
    prng.gen_u16()
}

/// Draws one `u32` of state from a seeding stream.
pub fn make_1_u32(prng: PRNG<SplitMix64>) -> (r: u32)
    ensures
        r as u128 == spec_nth_draw(prng.generator, 4, 0),
{
    let mut prng = prng;
    prng.gen_u32()
}

/// Draws four successive `u32` words of state from a seeding stream.
pub fn make_4_u32(prng: PRNG<SplitMix64>) -> (r: [u32; 4])
    ensures
        forall|i: int| 0 <= i < 4 ==> r[i] as u128 == spec_nth_draw(prng.generator, 4, i as nat),
{
    let mut prng = prng;
    let a: u32 = prng.gen_u32();
    let b: u32 = prng.gen_u32();
    let c: u32 = prng.gen_u32();
    let d: u32 = prng.gen_u32();
    proof {
        reveal_with_fuel(spec_nth_draw, 4);
    }
    [a, b, c, d]
}

/// Draws one `u64` of state from a seeding stream.
pub fn make_1_u64(prng: PRNG<SplitMix64>) -> (r: u64)
    ensures
        r as u128 == spec_nth_draw(prng.generator, 8, 0),
{
    let mut prng = prng;
    prng.gen_u64()
}

/// Draws two successive `u64` words of state from a seeding stream.
pub fn make_2_u64(prng: PRNG<SplitMix64>) -> (r: [u64; 2])
    ensures
        forall|i: int| 0 <= i < 2 ==> r[i] as u128 == spec_nth_draw(prng.generator, 8, i as nat),
{
    let mut prng = prng;
    let a: u64 = prng.gen_u64();
    let b: u64 = prng.gen_u64();
    proof {
        reveal_with_fuel(spec_nth_draw, 2);
    }
    [a, b]
}

/// Draws four successive `u64` words of state from a seeding stream.
pub fn make_4_u64(prng: PRNG<SplitMix64>) -> (r: [u64; 4])
    ensures
        forall|i: int| 0 <= i < 4 ==> r[i] as u128 == spec_nth_draw(prng.generator, 8, i as nat),
{
    let mut prng = prng;
    let a: u64 = prng.gen_u64();
    let b: u64 = prng.gen_u64();
    let c: u64 = prng.gen_u64();
    let d: u64 = prng.gen_u64();
    proof {
        reveal_with_fuel(spec_nth_draw, 4);
    }
    [a, b, c, d]
}

/// Draws one `u128` of state from a seeding stream: two native words joined,
/// the first one high.
pub fn make_1_u128(prng: PRNG<SplitMix64>) -> (r: u128)
    ensures
        r == spec_nth_draw(prng.generator, 16, 0),
{
    let mut prng = prng;
    prng.gen_u128()
}

/// The seed mask is odd.
pub proof fn lemma_seed_mask_odd()
    ensures
        SEED_MASK % 2 == 1,
{
}

/// Xor with a fixed word is one to one, and gives zero only on that word.
proof fn lemma_xor_injective(mask: u64, a: u64, b: u64)
    by (bit_vector)
    ensures
        (mask ^ a == mask ^ b) <==> a == b,
        (mask ^ a == 0) <==> a == mask,
        mask ^ 0 == mask,
{
}

/// Seeds give the same seeding stream exactly when their low 64 bits agree;
/// the default stream is the stream of the seed zero.
pub proof fn lemma_stream_injective(a: u128, b: u128)
    ensures
        spec_stream(a) == spec_stream(b) <==> a as u64 == b as u64,
        spec_default_stream() == spec_stream(0),
{
    lemma_xor_injective(SEED_MASK, a as u64, b as u64);
    lemma_xor_injective(SEED_MASK, 0, 0);
}

/// The seeding stream starts in the all-zero state for one seed only: the one
/// whose low 64 bits cancel the seed mask.
pub proof fn lemma_stream_zero(seed: u128)
    ensures
        spec_stream(seed).data == 0 <==> seed as u64 == SEED_MASK,
{
    lemma_xor_injective(SEED_MASK, seed as u64, 0);
}

/// Each xorshift round of the mixer is one to one.
proof fn lemma_xorshift_injective(a: u64, b: u64)
    by (bit_vector)
    ensures
        (a ^ (a >> 30u64)) == (b ^ (b >> 30u64)) ==> a == b,
        (a ^ (a >> 27u64)) == (b ^ (b >> 27u64)) ==> a == b,
        (a ^ (a >> 31u64)) == (b ^ (b >> 31u64)) ==> a == b,
{
}

/// Multiplying by `c` and then by its inverse `d` modulo 2^64 gives the word
/// back.
proof fn lemma_multiplier_cancels(x: u64, c: u64, d: u64)
    requires
        (c as int * d as int) % 0x1_0000_0000_0000_0000 == 1,
    ensures
        x.wrapping_mul(c).wrapping_mul(d) == x,
{
    let r: int = 0x1_0000_0000_0000_0000;
    let xc: int = x as int * c as int;
    lemma_mul_mod_noop_general(xc, d as int, r);
    assert(xc * d == x * (c * d)) by (nonlinear_arith)
        requires
            xc == x * c,
    ;
    lemma_mul_mod_noop_general(x as int, c as int * d as int, r);
    lemma_small_mod(x as nat, r as nat);
}

/// The output function of the seeding stream is one to one.
pub proof fn lemma_mix_injective(a: u64, b: u64)
    requires
        splitmix64_mix(a) == splitmix64_mix(b),
    ensures
        a == b,
{
    let c1: u64 = 0xBF58476D1CE4E5B9u64;
    let c2: u64 = 0x94D049BB133111EBu64;
    let a0 = a ^ (a >> 30u64);
    let b0 = b ^ (b >> 30u64);
    let a1 = a0.wrapping_mul(c1);
    let b1 = b0.wrapping_mul(c1);
    let a2 = a1 ^ (a1 >> 27u64);
    let b2 = b1 ^ (b1 >> 27u64);
    let a3 = a2.wrapping_mul(c2);
    let b3 = b2.wrapping_mul(c2);
    lemma_xorshift_injective(a3, b3);
    assert(a3 == b3);
    assert((0x94D049BB133111EBint * 0x319642b2d24d8ec3int) % 0x1_0000_0000_0000_0000 == 1);
    lemma_multiplier_cancels(a2, c2, 0x319642b2d24d8ec3u64);
    lemma_multiplier_cancels(b2, c2, 0x319642b2d24d8ec3u64);
    assert(a2 == b2);
    lemma_xorshift_injective(a1, b1);
    assert(a1 == b1);
    assert((0xBF58476D1CE4E5B9int * 0x96de1b173f119089int) % 0x1_0000_0000_0000_0000 == 1);
    lemma_multiplier_cancels(a0, c1, 0x96de1b173f119089u64);
    lemma_multiplier_cancels(b0, c1, 0x96de1b173f119089u64);
    assert(a0 == b0);
    lemma_xorshift_injective(a, b);
}

/// Seeds that differ in their low 64 bits diverge after one step of the
/// seeding stream: both the first word drawn and the state behind it differ.
pub proof fn lemma_seeds_diverge(a: u128, b: u128)
    requires
        a as u64 != b as u64,
    ensures
        spec_stream(a).spec_output() != spec_stream(b).spec_output(),
        spec_stream(a).spec_step() != spec_stream(b).spec_step(),
{
    lemma_stream_injective(a, b);
    let x = spec_stream(a).data;
    let y = spec_stream(b).data;
    let gamma: u64 = 0x9E3779B97f4A7C15u64;
    assert(x.wrapping_add(gamma) != y.wrapping_add(gamma));
    if spec_stream(a).spec_output() == spec_stream(b).spec_output() {
        lemma_mix_injective(x.wrapping_add(gamma), y.wrapping_add(gamma));
    }
}

} // verus!
