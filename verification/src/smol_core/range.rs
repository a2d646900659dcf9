//! Range-limited bytes by masked rejection.
use vstd::arithmetic::power2::{lemma2_to64, pow2};
use vstd::prelude::*;
use crate::smol_core::width::{spec_draw, spec_nth_draw};
use crate::smol_core::{Algorithm, PRNG};

verus! {

/// The mask of a range-limited draw: one less than the least power of two
/// above `range`, and never less than 1.
pub open spec fn range_mask(range: u8) -> u8 {
    if range < 2 {
        0x01
    } else if range < 4 {
        0x03
    } else if range < 8 {
        0x07
    } else if range < 16 {
        0x0f
    } else if range < 32 {
        0x1f
    } else if range < 64 {
        0x3f
    } else if range < 128 {
        0x7f
    } else {
        0xff
    }
}

/// The range-limited draw below `range` from engine state `g`, with at most
/// `attempts` tries: each try draws one byte and masks it; the first masked
/// byte below `range` is the result. `None` when every try was rejected.
pub open spec fn spec_draw_in_range<T: Algorithm>(g: T, range: u8, attempts: nat) -> (
    Option<u8>,
    T,
)
    decreases attempts,
{
    if attempts == 0 {
        (None, g)
    } else {
        let (byte, g1) = spec_draw(g, 1);
        let masked = (byte as u8) & range_mask(range);
        if masked < range {
            (Some(masked), g1)
        } else {
            spec_draw_in_range(g1, range, (attempts - 1) as nat)
        }
    }
}

/// A byte with a set bit at place `7 - lz` and none above it has `lz` leading
/// zeros; shifting `0xff` right by that count gives the mask of the range.
proof fn lemma_range_mask(range: u8, lz: u8)
    by (bit_vector)
    requires
        lz < 8,
        ((range | 1u8) >> ((7u8 - lz) as u8)) & 1u8 != 0u8,
        (range | 1u8) >> ((8u8 - lz) as u8) == 0u8,
    ensures
        (0xffu8 >> lz) == range_mask(range),
{
}

/// A byte with its low bit set is not zero.
proof fn lemma_low_bit_set(range: u8)
    by (bit_vector)
    ensures
        range | 1u8 != 0u8,
{
}

impl<T: Algorithm> PRNG<T> {
    /// Generates a random `u8` below `R - 1` without bias, by masked
    /// rejection, giving up after `max_attempts` rejected bytes.
    ///
    /// Returns the first masked byte that is below `R - 1`, or `None` when all
    /// `max_attempts` bytes were rejected; each try consumes one byte draw.
    pub fn gen_u8_in_range<const R: u8>(&mut self, max_attempts: u32) -> (r: Option<u8>)
        requires
            R >= 1,
        ensures
            (r, final(self).generator) == spec_draw_in_range(
                old(self).generator,
                (R - 1) as u8,
                max_attempts as nat,
            ),
            r matches Some(x) ==> x < R - 1,
    {
        let range: u8 = R - 1;
        let lz: u32 = (range | 1u8).leading_zeros();
        proof {
            lemma_low_bit_set(range);
            vstd::std_specs::bits::axiom_u8_leading_zeros(range | 1u8);
            lemma_range_mask(range, lz as u8);
        }
        let mask: u8 = 0xffu8 >> lz;
        let ghost start = self.generator;
        let mut attempts: u32 = 0;
        while attempts < max_attempts
            invariant
                attempts <= max_attempts,
                range == R - 1,
                start == old(self).generator,
                mask == range_mask(range),
                spec_draw_in_range(start, range, max_attempts as nat) == spec_draw_in_range(
                    self.generator,
                    range,
                    (max_attempts - attempts) as nat,
                ),
            decreases max_attempts - attempts,
        {
            let x: u8 = self.gen_u8() & mask;
            if x < range {
                return Some(x);
            }
            attempts += 1;
        }
        None
    }
}

/// The mask of a range covers the range and is one less than a power of two;
/// it is the least such mask, so that at least half of the masked bytes fall
/// below a range that is not empty and a draw is rejected with probability
/// one half at most.
pub proof fn lemma_range_mask_least(range: u8)
    ensures
        range <= range_mask(range),
        exists|k: nat| 1 <= k <= 8 && range_mask(range) + 1 == pow2(k),
        range >= 1 ==> range_mask(range) + 1 <= 2 * range,
{
    lemma2_to64();
    let mask = range_mask(range);
    let k: nat = if mask == 0x01 {
        1
    } else if mask == 0x03 {
        2
    } else if mask == 0x07 {
        3
    } else if mask == 0x0f {
        4
    } else if mask == 0x1f {
        5
    } else if mask == 0x3f {
        6
    } else if mask == 0x7f {
        7
    } else {
        8
    };
    assert(1 <= k <= 8 && mask + 1 == pow2(k));
}

/// A range-limited draw that succeeds is below the range, and is the masked
/// byte of one of the first `attempts` byte draws.
pub proof fn lemma_draw_in_range_sound<T: Algorithm>(g: T, range: u8, attempts: nat)
    ensures
        spec_draw_in_range(g, range, attempts).0 matches Some(x) ==> x < range && exists|i: nat|
            i < attempts && x == (#[trigger] spec_nth_draw(g, 1, i) as u8) & range_mask(range),
    decreases attempts,
{
    if attempts > 0 {
        let (byte, g1) = spec_draw(g, 1);
        let masked = (byte as u8) & range_mask(range);
        if masked < range {
            assert(masked == (spec_nth_draw(g, 1, 0) as u8) & range_mask(range));
        } else {
            lemma_draw_in_range_sound(g1, range, (attempts - 1) as nat);
            if let Some(x) = spec_draw_in_range(g1, range, (attempts - 1) as nat).0 {
                let i = choose|i: nat|
                    i < attempts - 1 && x == (#[trigger] spec_nth_draw(g1, 1, i) as u8)
                        & range_mask(range);
                assert(spec_nth_draw(g, 1, i + 1) == spec_nth_draw(g1, 1, i));
            }
        }
    }
}

/// With an empty range every byte is rejected, whatever the attempt bound.
pub proof fn lemma_draw_in_empty_range<T: Algorithm>(g: T, attempts: nat)
    ensures
        spec_draw_in_range(g, 0, attempts).0 is None,
    decreases attempts,
{
    if attempts > 0 {
        lemma_draw_in_empty_range(spec_draw(g, 1).1, (attempts - 1) as nat);
    }
}

/// A larger attempt bound never changes a range-limited draw that succeeded.
pub proof fn lemma_draw_in_range_monotone<T: Algorithm>(g: T, range: u8, few: nat, many: nat)
    requires
        few <= many,
        spec_draw_in_range(g, range, few).0 is Some,
    ensures
        spec_draw_in_range(g, range, many) == spec_draw_in_range(g, range, few),
    decreases few,
{
    if few > 0 {
        let (byte, g1) = spec_draw(g, 1);
        let masked = (byte as u8) & range_mask(range);
        if masked >= range {
            lemma_draw_in_range_monotone(g1, range, (few - 1) as nat, (many - 1) as nat);
        }
    }
}

/// Masking has no bias: for any two masked values `x` and `y`, flipping the
/// bits in which they differ pairs off the bytes that mask to `x` with the
/// bytes that mask to `y`. So each masked value comes from equally many
/// bytes, and accepted draws are uniform below the range.
pub proof fn lemma_mask_unbiased(range: u8, byte: u8, x: u8, y: u8)
    by (bit_vector)
    requires
        x <= range_mask(range),
        y <= range_mask(range),
        byte & range_mask(range) == x,
    ensures
        (byte ^ x ^ y) & range_mask(range) == y,
        (byte ^ x ^ y) ^ y ^ x == byte,
{
}

} // verus!
