//! Draws on the unit interval, in integers: the bit patterns of uniform
//! floats, their mantissas, and the Bernoulli and binomial draws that compare
//! a mantissa with a threshold.
use vstd::prelude::*;
use crate::smol_core::output::AlgorithmOutput;
use crate::smol_core::width::{draw_steps, lemma_draw_steps, spec_draw};
use crate::smol_core::{lemma_steps_add, spec_steps, Algorithm, PRNG};

verus! {

/// The bit pattern of the double in [1, 2) whose mantissa is the top 52 bits
/// of `x`: sign 0, exponent `0x3FF`.
pub open spec fn f64_unit_bits(x: u64) -> u64 {
    0x3FF0_0000_0000_0000u64 | (x >> 12u64)
}

/// The bit pattern of the single-precision float in [1, 2) whose mantissa is
/// the top 23 bits of `x`: sign 0, exponent `0x7F`.
pub open spec fn f32_unit_bits(x: u32) -> u32 {
    0x3F80_0000u32 | (x >> 9u32)
}

/// The mantissa of the uniform double drawn from engine state `g`: the top
/// 52 bits of a 64-bit draw. The double itself is this mantissa over 2^52.
pub open spec fn spec_draw_mantissa<T: Algorithm>(g: T) -> (u64, T) {
    ((spec_draw(g, 8).0 as u64) >> 12u64, spec_draw(g, 8).1)
}

/// The Bernoulli draw from engine state `g`: 1 when the uniform mantissa is
/// below `threshold`, else 0. A probability `p` has the threshold
/// `ceil(p * 2^52)`, so that the draw is 1 exactly when `p` exceeds the
/// uniform double.
pub open spec fn spec_bernoulli<T: Algorithm>(g: T, threshold: u64) -> (u64, T) {
    let (mantissa, g1) = spec_draw_mantissa(g);
    (
        if threshold > mantissa {
            1u64
        } else {
            0u64
        },
        g1,
    )
}

/// The binomial draw from engine state `g`: the number of ones among `n`
/// successive Bernoulli draws.
pub open spec fn spec_binomial<T: Algorithm>(g: T, n: nat, threshold: u64) -> (nat, T)
    decreases n,
{
    if n == 0 {
        (0, g)
    } else {
        let (count, g1) = spec_binomial(g, (n - 1) as nat, threshold);
        let (hit, g2) = spec_bernoulli(g1, threshold);
        (count + hit as nat, g2)
    }
}

/// The unit-interval bit patterns have sign 0 and the exponent of [1, 2).
proof fn lemma_unit_bits(x: u64, y: u32)
    by (bit_vector)
    ensures
        0x3FF0_0000_0000_0000u64 <= (0x3FF0_0000_0000_0000u64 | (x >> 12u64))
            <= 0x3FFF_FFFF_FFFF_FFFFu64,
        (0x3FF0_0000_0000_0000u64 | (x >> 12u64)) & 0x000F_FFFF_FFFF_FFFFu64 == x >> 12u64,
        0x3F80_0000u32 <= (0x3F80_0000u32 | (y >> 9u32)) <= 0x3FFF_FFFFu32,
        (0x3F80_0000u32 | (y >> 9u32)) & 0x007F_FFFFu32 == y >> 9u32,
{
}

/// The top 52 bits of a word are below 2^52.
proof fn lemma_mantissa_bound(x: u64)
    by (bit_vector)
    ensures
        (x >> 12u64) < 0x0010_0000_0000_0000u64,
{
}

impl<T: Algorithm> PRNG<T> {
    /// Generates the bit pattern of a random double in [1, 2): the top 52 bits
    /// of a 64-bit draw as the mantissa, under sign 0 and exponent `0x3FF`.
    /// Subtracting 1.0 from that double gives one of 2^52 values in [0, 1).
    pub fn gen_f64_bits(&mut self) -> (bits: u64)
        ensures
            bits == f64_unit_bits(spec_draw(old(self).generator, 8).0 as u64),
            final(self).generator == spec_draw(old(self).generator, 8).1,
            0x3FF0_0000_0000_0000 <= bits <= 0x3FFF_FFFF_FFFF_FFFF,
    {
        let x: u64 = self.gen_u64();
        proof {
            lemma_unit_bits(x, 0);
        }
        0x3FF0_0000_0000_0000u64 | (x >> 12)
    }

    /// Generates the bit pattern of a random single-precision float in
    /// [1, 2): the top 23 bits of a 32-bit draw as the mantissa, under sign 0
    /// and exponent `0x7F`. Subtracting 1.0 gives one of 2^23 values in [0, 1).
    pub fn gen_f32_bits(&mut self) -> (bits: u32)
        ensures
            bits == f32_unit_bits(spec_draw(old(self).generator, 4).0 as u32),
            final(self).generator == spec_draw(old(self).generator, 4).1,
            0x3F80_0000 <= bits <= 0x3FFF_FFFF,
    {
        let x: u32 = self.gen_u32();
        proof {
            lemma_unit_bits(0, x);
        }
        0x3F80_0000u32 | (x >> 9)
    }

    /// Draws the mantissa of a uniform double: the top 52 bits of a 64-bit
    /// draw, so that mantissa over 2^52 is uniform in [0, 1).
    pub fn gen_mantissa(&mut self) -> (mantissa: u64)
        ensures
            (mantissa, final(self).generator) == spec_draw_mantissa(old(self).generator),
            mantissa < 0x0010_0000_0000_0000,
            f64_unit_bits(spec_draw(old(self).generator, 8).0 as u64) == 0x3FF0_0000_0000_0000u64
                | mantissa,
    {
        let x: u64 = self.gen_u64();
        proof {
            lemma_mantissa_bound(x);
        }
        x >> 12
    }

    /// Samples a Bernoulli distribution whose probability is given by its
    /// threshold `ceil(p * 2^52)`: returns 1 when the uniform mantissa is below
    /// the threshold, else 0.
    pub fn bernoulli_scaled(&mut self, threshold: u64) -> (r: u64)
        ensures
            (r, final(self).generator) == spec_bernoulli(old(self).generator, threshold),
            r <= 1,
            threshold == 0 ==> r == 0,
            threshold >= 0x0010_0000_0000_0000 ==> r == 1,
    {
        if threshold > self.gen_mantissa() {
            1
        } else {
            0
        }
    }

    /// Samples a binomial distribution: the number of ones among `n`
    /// Bernoulli draws with the given threshold.
    pub fn binomial_scaled(&mut self, n: u64, threshold: u64) -> (count: u64)
        ensures
            (count as nat, final(self).generator) == spec_binomial(
                old(self).generator,
                n as nat,
                threshold,
            ),
            count <= n,
    {
        let ghost start = self.generator;
        let mut count: u64 = 0;
        let mut i: u64 = 0;
        while i < n
            invariant
                i <= n,
                count <= i,
                (count as nat, self.generator) == spec_binomial(start, i as nat, threshold),
            decreases n - i,
        {
            count += self.bernoulli_scaled(threshold);
            i += 1;
        }
        count
    }
}

/// With threshold 0, the probability zero, every Bernoulli draw is 0 and the
/// binomial count is 0.
pub proof fn lemma_binomial_never<T: Algorithm>(g: T, n: nat)
    ensures
        spec_bernoulli(g, 0).0 == 0,
        spec_binomial(g, n, 0).0 == 0,
    decreases n,
{
    if n > 0 {
        lemma_binomial_never(g, (n - 1) as nat);
    }
}

/// With a threshold of 2^52 or more, the probability one, every Bernoulli
/// draw is 1 and the binomial count is the number of draws.
pub proof fn lemma_binomial_always<T: Algorithm>(g: T, n: nat, threshold: u64)
    requires
        threshold >= 0x0010_0000_0000_0000,
    ensures
        spec_bernoulli(g, threshold).0 == 1,
        spec_binomial(g, n, threshold).0 == n,
    decreases n,
{
    lemma_mantissa_bound(spec_draw(g, 8).0 as u64);
    if n > 0 {
        lemma_binomial_always(g, (n - 1) as nat, threshold);
        let g1 = spec_binomial(g, (n - 1) as nat, threshold).1;
        lemma_mantissa_bound(spec_draw(g1, 8).0 as u64);
    }
}

/// A binomial count never exceeds the number of draws, and it takes one
/// 64-bit draw for each of them.
pub proof fn lemma_binomial_bound<T: Algorithm>(g: T, n: nat, threshold: u64)
    ensures
        spec_binomial(g, n, threshold).0 <= n,
        spec_binomial(g, n, threshold).1 == spec_steps(
            g,
            n * draw_steps(T::Output::spec_size(), 8),
        ),
    decreases n,
{
    let each = draw_steps(T::Output::spec_size(), 8);
    if n > 0 {
        let g1 = spec_binomial(g, (n - 1) as nat, threshold).1;
        lemma_binomial_bound(g, (n - 1) as nat, threshold);
        lemma_draw_steps(g1, 8);
        lemma_steps_add(g, ((n - 1) * each) as nat, each);
        assert((n - 1) * each + each == n * each) by (nonlinear_arith);
    } else {
        assert(0 * each == 0);
    }
}

} // verus!
