//! Width adaptation: unsigned integers of 1 to 16 bytes and booleans, drawn
//! from native outputs of any supported width.
//!
//! A draw always uses the high bits of a native output; only the boolean draw
//! reads the low bit.
use vstd::prelude::*;
use crate::smol_core::output::{max_value, supported_size, AlgorithmOutput};
use crate::smol_core::{lemma_steps_add, spec_steps, Algorithm, PRNG};

verus! {

/// The top `m` bytes of the native output `v`, for `m` at most the native width.
pub open spec fn top_bytes<O: AlgorithmOutput>(v: O, m: nat) -> u128 {
    v.spec_value() >> ((8 * (O::spec_size() - m)) as u8)
}

/// The join of two halves of `m / 2` bytes each, the first one high.
pub open spec fn join(hi: u128, lo: u128, m: nat) -> u128 {
    (hi << ((4 * m) as u8)) | lo
}

/// The draw of an `m`-byte unsigned integer from engine state `g`: the value
/// and the state afterwards.
///
/// When the native width covers `m` bytes, one native output is taken and its
/// top `m` bytes are kept. Otherwise two draws of `m / 2` bytes are made and
/// joined, the first as the high half.
pub open spec fn spec_draw<T: Algorithm>(g: T, m: nat) -> (u128, T)
    decreases m,
{
    if m <= T::Output::spec_size() || m <= 1 {
        (top_bytes(g.spec_output(), m), g.spec_step())
    } else {
        let (hi, g1) = spec_draw(g, m / 2);
        let (lo, g2) = spec_draw(g1, m / 2);
        (join(hi, lo, m), g2)
    }
}

/// The `i`-th of successive `m`-byte draws from engine state `g`, counting
/// from zero.
pub open spec fn spec_nth_draw<T: Algorithm>(g: T, m: nat, i: nat) -> u128
    decreases i,
{
    if i == 0 {
        spec_draw(g, m).0
    } else {
        spec_nth_draw(spec_draw(g, m).1, m, (i - 1) as nat)
    }
}

/// The boolean draw from engine state `g`: the low bit of one native output.
pub open spec fn spec_draw_bool<T: Algorithm>(g: T) -> (bool, T) {
    (g.spec_output().spec_value() & 1 == 1, g.spec_step())
}

/// The number of engine steps that a draw of `m` bytes takes on an engine of
/// `native` bytes: one, or as many native words as make up the width.
pub open spec fn draw_steps(native: nat, m: nat) -> nat {
    if m <= native {
        1
    } else {
        m / native
    }
}

/// The top bytes of a value that fits in a native width fit in the narrower
/// width that was asked for.
proof fn lemma_top_fits(v: u128)
    by (bit_vector)
    ensures
        v <= 0xffff ==> (v >> 8u8) <= 0xff,
        v <= 0xffff_ffff ==> (v >> 24u8) <= 0xff && (v >> 16u8) <= 0xffff,
        v <= 0xffff_ffff_ffff_ffff ==> (v >> 56u8) <= 0xff && (v >> 48u8) <= 0xffff && (v >> 32u8)
            <= 0xffff_ffff,
        (v >> 120u8) <= 0xff,
        (v >> 112u8) <= 0xffff,
        (v >> 96u8) <= 0xffff_ffff,
        (v >> 64u8) <= 0xffff_ffff_ffff_ffff,
        (v >> 0u8) == v,
{
}

/// For a native width of at least `m` bytes, the top `m` bytes of a native
/// output fit in `m` bytes.
pub proof fn lemma_top_bytes_bound<O: AlgorithmOutput>(v: O, m: nat)
    requires
        supported_size(m),
        m <= O::spec_size(),
    ensures
        top_bytes(v, m) <= max_value(m),
        m == O::spec_size() ==> top_bytes(v, m) == v.spec_value(),
{
    O::lemma_size();
    v.lemma_value_fits();
    lemma_top_fits(v.spec_value());
}

/// Joining two bytes in 16 bits agrees with joining them at 128 bits.
proof fn lemma_join_u16(hi: u8, lo: u8)
    by (bit_vector)
    ensures
        ((((hi as u16) << 8u8) | (lo as u16)) as u128) == (((hi as u128) << 8u8) | (lo as u128)),
{
}

/// Joining two 16-bit halves in 32 bits agrees with joining them at 128 bits.
proof fn lemma_join_u32(hi: u16, lo: u16)
    by (bit_vector)
    ensures
        ((((hi as u32) << 16u8) | (lo as u32)) as u128) == (((hi as u128) << 16u8) | (lo as u128)),
{
}

/// Joining two 32-bit halves in 64 bits agrees with joining them at 128 bits.
proof fn lemma_join_u64(hi: u32, lo: u32)
    by (bit_vector)
    ensures
        ((((hi as u64) << 32u8) | (lo as u64)) as u128) == (((hi as u128) << 32u8) | (lo as u128)),
{
}

impl<T: Algorithm> PRNG<T> {
    /// Generates a random `bool`: the low bit of one native output.
    pub fn gen_bool(&mut self) -> (b: bool)
        ensures
            (b, final(self).generator) == spec_draw_bool(old(self).generator),
    {
        self.generator.gen().get_low()
    }

    /// Generates a random `u8`: the top byte of one native output.
    pub fn gen_u8(&mut self) -> (r: u8)
        ensures
            (r as u128, final(self).generator) == spec_draw(old(self).generator, 1),
    {
        let val = self.generator.gen();
        let size: usize = T::Output::size();
        let r_shift: u8 = ((size - 1) * 8) as u8;
        proof {
            lemma_top_bytes_bound(val, 1);
        }
        val.shift_right(r_shift).cast_to_u8()
    }

    /// Generates a random `u16`: the top 2 bytes of one native output where the
    /// engine is wide enough, else two `u8` draws joined, the first one high.
    pub fn gen_u16(&mut self) -> (r: u16)
        ensures
            (r as u128, final(self).generator) == spec_draw(old(self).generator, 2),
    {
        let size: usize = T::Output::size();
        if size < 2 {
            let hi: u8 = self.gen_u8();
            let lo: u8 = self.gen_u8();
            proof {
                lemma_join_u16(hi, lo);
            }
            return (hi.cast_to_u16() << 8u8) | lo.cast_to_u16();
        }
        let val = self.generator.gen();
        let r_shift: u8 = ((size - 2) * 8) as u8;
        proof {
            lemma_top_bytes_bound(val, 2);
        }
        val.shift_right(r_shift).cast_to_u16()
    }

    /// Generates a random `u32`: the top 4 bytes of one native output where the
    /// engine is wide enough, else two `u16` draws joined, the first one high.
    pub fn gen_u32(&mut self) -> (r: u32)
        ensures
            (r as u128, final(self).generator) == spec_draw(old(self).generator, 4),
    {
        let size: usize = T::Output::size();
        if size < 4 {
            let hi: u16 = self.gen_u16();
            let lo: u16 = self.gen_u16();
            proof {
                lemma_join_u32(hi, lo);
            }
            return (hi.cast_to_u32() << 16u8) | lo.cast_to_u32();
        }
        let val = self.generator.gen();
        let r_shift: u8 = ((size - 4) * 8) as u8;
        proof {
            lemma_top_bytes_bound(val, 4);
        }
        val.shift_right(r_shift).cast_to_u32()
    }

    /// Generates a random `u64`: the top 8 bytes of one native output where the
    /// engine is wide enough, else two `u32` draws joined, the first one high.
    pub fn gen_u64(&mut self) -> (r: u64)
        ensures
            (r as u128, final(self).generator) == spec_draw(old(self).generator, 8),
    {
        let size: usize = T::Output::size();
        if size < 8 {
            let hi: u32 = self.gen_u32();
            let lo: u32 = self.gen_u32();
            proof {
                lemma_join_u64(hi, lo);
            }
            return (hi.cast_to_u64() << 32u8) | lo.cast_to_u64();
        }
        let val = self.generator.gen();
        let r_shift: u8 = ((size - 8) * 8) as u8;
        proof {
            lemma_top_bytes_bound(val, 8);
        }
        val.shift_right(r_shift).cast_to_u64()
    }

    /// Generates a random `u128`: the top 16 bytes of one native output where the
    /// engine is wide enough, else two `u64` draws joined, the first one high.
    pub fn gen_u128(&mut self) -> (r: u128)
        ensures
            (r, final(self).generator) == spec_draw(old(self).generator, 16),
    {
        let size: usize = T::Output::size();
        if size < 16 {
            let hi: u64 = self.gen_u64();
            let lo: u64 = self.gen_u64();
            return (hi.cast_to_u128() << 64u8) | lo.cast_to_u128();
        }
        let val = self.generator.gen();
        let r_shift: u8 = ((size - 16) * 8) as u8;
        proof {
            lemma_top_bytes_bound(val, 16);
        }
        val.shift_right(r_shift).cast_to_u128()
    }
}

/// A draw at the native width returns the native output unchanged and takes
/// one engine step.
pub proof fn lemma_draw_native<T: Algorithm>(g: T)
    ensures
        spec_draw(g, T::Output::spec_size()) == (g.spec_output().spec_value(), g.spec_step()),
{
    T::Output::lemma_size();
    lemma_top_bytes_bound(g.spec_output(), T::Output::spec_size());
}

/// A draw at twice the native width is two native-width draws joined, the
/// first as the high half and the second as the low half.
pub proof fn lemma_draw_double<T: Algorithm>(g: T)
    requires
        T::Output::spec_size() < 16,
    ensures
        ({
            let n = T::Output::spec_size();
            let (hi, g1) = spec_draw(g, n);
            let (lo, g2) = spec_draw(g1, n);
            spec_draw(g, 2 * n) == (join(hi, lo, 2 * n), g2)
        }),
        ({
            let n = T::Output::spec_size();
            let hi = g.spec_output().spec_value();
            let lo = g.spec_step().spec_output().spec_value();
            spec_draw(g, 2 * n) == (join(hi, lo, 2 * n), g.spec_step().spec_step())
        }),
{
    T::Output::lemma_size();
    lemma_draw_native(g);
    lemma_draw_native(g.spec_step());
    reveal_with_fuel(spec_draw, 2);
}

/// A draw no wider than the native output takes its top bytes and one engine
/// step; the value fits in the width that was asked for.
pub proof fn lemma_draw_narrow<T: Algorithm>(g: T, m: nat)
    requires
        supported_size(m),
        m <= T::Output::spec_size(),
    ensures
        spec_draw(g, m) == (top_bytes(g.spec_output(), m), g.spec_step()),
        spec_draw(g, m).0 <= max_value(m),
{
    lemma_top_bytes_bound(g.spec_output(), m);
}

/// Joining two halves, at each of the four widths: the halves can be read
/// back from the whole, and the whole splits into halves that join to it.
proof fn lemma_join_halves(hi: u128, lo: u128, v: u128)
    by (bit_vector)
    ensures
        hi <= 0xff && lo <= 0xff ==> ((hi << 8u8) | lo) <= 0xffff && ((hi << 8u8) | lo) >> 8u8
            == hi && ((hi << 8u8) | lo) & 0xff == lo,
        hi <= 0xffff && lo <= 0xffff ==> ((hi << 16u8) | lo) <= 0xffff_ffff && ((hi << 16u8)
            | lo) >> 16u8 == hi && ((hi << 16u8) | lo) & 0xffff == lo,
        hi <= 0xffff_ffff && lo <= 0xffff_ffff ==> ((hi << 32u8) | lo) <= 0xffff_ffff_ffff_ffff
            && ((hi << 32u8) | lo) >> 32u8 == hi && ((hi << 32u8) | lo) & 0xffff_ffff == lo,
        hi <= 0xffff_ffff_ffff_ffff && lo <= 0xffff_ffff_ffff_ffff ==> ((hi << 64u8) | lo)
            >> 64u8 == hi && ((hi << 64u8) | lo) & 0xffff_ffff_ffff_ffff == lo,
        v <= 0xffff ==> (v >> 8u8) <= 0xff && (((v >> 8u8) << 8u8) | (v & 0xff)) == v,
        v <= 0xffff_ffff ==> (v >> 16u8) <= 0xffff && (((v >> 16u8) << 16u8) | (v & 0xffff)) == v,
        v <= 0xffff_ffff_ffff_ffff ==> (v >> 32u8) <= 0xffff_ffff && (((v >> 32u8) << 32u8) | (v
            & 0xffff_ffff)) == v,
        (v >> 64u8) <= 0xffff_ffff_ffff_ffff && (((v >> 64u8) << 64u8) | (v
            & 0xffff_ffff_ffff_ffff)) == v,
        (v & 0xff) <= 0xff,
        (v & 0xffff) <= 0xffff,
        (v & 0xffff_ffff) <= 0xffff_ffff,
        (v & 0xffff_ffff_ffff_ffff) <= 0xffff_ffff_ffff_ffff,
{
}

/// Joining loses nothing: two halves that fit in `m / 2` bytes give a whole
/// that fits in `m` bytes, from which both halves can be read back. So
/// different pairs of halves give different wholes.
pub proof fn lemma_join_injective(hi: u128, lo: u128, m: nat)
    requires
        m == 2 || m == 4 || m == 8 || m == 16,
        hi <= max_value(m / 2),
        lo <= max_value(m / 2),
    ensures
        join(hi, lo, m) <= max_value(m),
        join(hi, lo, m) >> ((4 * m) as u8) == hi,
        join(hi, lo, m) & max_value(m / 2) == lo,
{
    lemma_join_halves(hi, lo, 0);
}

/// Joining reaches everything: each value of `m` bytes is the join of its own
/// two halves. With the law before, joining is a one-to-one correspondence
/// between pairs of halves and wholes, so that uniform, independent halves
/// make a uniform whole.
pub proof fn lemma_join_surjective(v: u128, m: nat)
    requires
        m == 2 || m == 4 || m == 8 || m == 16,
        v <= max_value(m),
    ensures
        v >> ((4 * m) as u8) <= max_value(m / 2),
        v & max_value(m / 2) <= max_value(m / 2),
        join(v >> ((4 * m) as u8), v & max_value(m / 2), m) == v,
{
    lemma_join_halves(0, 0, v);
}

/// A draw of a supported width fits in that width, whatever the native
/// width of the engine.
pub proof fn lemma_draw_fits<T: Algorithm>(g: T, m: nat)
    requires
        supported_size(m),
    ensures
        spec_draw(g, m).0 <= max_value(m),
    decreases m,
{
    T::Output::lemma_size();
    if m <= T::Output::spec_size() || m <= 1 {
        lemma_top_bytes_bound(g.spec_output(), m);
    } else {
        let (hi, g1) = spec_draw(g, m / 2);
        let (lo, g2) = spec_draw(g1, m / 2);
        lemma_draw_fits(g, m / 2);
        lemma_draw_fits(g1, m / 2);
        lemma_join_injective(hi, lo, m);
    }
}

/// A draw wider than the native output takes twice the steps of a draw of
/// half its width; no draw takes fewer than one step.
proof fn lemma_draw_steps_halve(native: nat, m: nat)
    requires
        supported_size(native),
        supported_size(m),
    ensures
        draw_steps(native, m) >= 1,
        m > native ==> draw_steps(native, m) == 2 * draw_steps(native, m / 2),
{
    if native == 1 {
        assert(m / native == m);
    } else if native == 2 {
        assert(m / native == m / 2);
    } else if native == 4 {
        assert(m / native == m / 4);
    } else if native == 8 {
        assert(m / native == m / 8);
    } else {
        assert(m / native == m / 16);
    }
}

/// Every draw consumes at least one native output: a draw of a supported
/// width leaves the engine one step on where the native width covers it, and
/// as many steps on as native words make up the width where it does not.
pub proof fn lemma_draw_steps<T: Algorithm>(g: T, m: nat)
    requires
        supported_size(m),
    ensures
        spec_draw(g, m).1 == spec_steps(g, draw_steps(T::Output::spec_size(), m)),
        draw_steps(T::Output::spec_size(), m) >= 1,
    decreases m,
{
    T::Output::lemma_size();
    let native = T::Output::spec_size();
    lemma_draw_steps_halve(native, m);
    if m <= native || m <= 1 {
        reveal_with_fuel(spec_steps, 2);
    } else {
        let half = m / 2;
        let g1 = spec_draw(g, half).1;
        lemma_draw_steps(g, half);
        lemma_draw_steps(g1, half);
        lemma_steps_add(g, draw_steps(native, half), draw_steps(native, half));
    }
}

/// The boolean draw has no bias: flipping the low bit pairs off the words
/// that give `true` with the words that give `false`.
pub proof fn lemma_low_bit_unbiased(word: u128)
    by (bit_vector)
    ensures
        ((word ^ 1) & 1 == 1) == !(word & 1 == 1),
        (word ^ 1) ^ 1 == word,
{
}

} // verus!
