//! The native output contract, and the five unsigned integer types that meet it.
use vstd::prelude::*;

verus! {

/// Largest value that fits in `size` bytes, for the supported widths.
pub open spec fn max_value(size: nat) -> u128 {
    if size == 1 {
        0xff
    } else if size == 2 {
        0xffff
    } else if size == 4 {
        0xffff_ffff
    } else if size == 8 {
        0xffff_ffff_ffff_ffff
    } else {
        u128::MAX
    }
}

/// Whether `size` is one of the supported byte widths 1, 2, 4, 8, 16.
pub open spec fn supported_size(size: nat) -> bool {
    size == 1 || size == 2 || size == 4 || size == 8 || size == 16
}

/// A native engine output: an unsigned integer of 1, 2, 4, 8 or 16 bytes.
pub trait AlgorithmOutput: Sized + Copy {
    /// Width of the type in bytes.
    spec fn spec_size() -> nat;

    /// The value, widened to 128 bits.
    spec fn spec_value(&self) -> u128;

    /// The width is one of the supported ones.
    proof fn lemma_size()
        ensures
            supported_size(Self::spec_size()),
    ;

    /// The value fits in the width.
    proof fn lemma_value_fits(&self)
        ensures
            self.spec_value() <= max_value(Self::spec_size()),
    ;

    /// The size in bytes of the output type: always a supported power of two.
    fn size() -> (n: usize)
        ensures
            n == Self::spec_size(),
            supported_size(n as nat),
    ;

    /// Logical right shift by `n` bits.
    fn shift_right(self, n: u8) -> (r: Self)
        requires
            n < 8 * Self::spec_size(),
        ensures
            r.spec_value() == self.spec_value() >> n,
    ;

    /// Converts to `u8`, keeping the low 8 bits.
    fn cast_to_u8(self) -> (r: u8)
        ensures
            r == self.spec_value() as u8,
    ;

    /// Converts to `u16`, keeping the low 16 bits.
    fn cast_to_u16(self) -> (r: u16)
        ensures
            r == self.spec_value() as u16,
    ;

    /// Converts to `u32`, keeping the low 32 bits.
    fn cast_to_u32(self) -> (r: u32)
        ensures
            r == self.spec_value() as u32,
    ;

    /// Converts to `u64`, keeping the low 64 bits.
    fn cast_to_u64(self) -> (r: u64)
        ensures
            r == self.spec_value() as u64,
    ;

    /// Converts to `u128`; no bits are lost.
    fn cast_to_u128(self) -> (r: u128)
        ensures
            r == self.spec_value(),
    ;

    /// The lowest bit of the output as a `bool`.
    fn get_low(self) -> (b: bool)
        ensures
            b == (self.spec_value() & 1 == 1),
    ;
}

/// Shifting, truncating and testing the low bit of a `u8` agree with the
/// same operations on the value widened to 128 bits.
proof fn lemma_widen_u8(x: u8, n: u8)
    by (bit_vector)
    ensures
        n < 8 ==> ((x >> n) as u128) == ((x as u128) >> n),
        (x & 1 == 1) == ((x as u128) & 1 == 1),
{
}

impl AlgorithmOutput for u8 {
    open spec fn spec_size() -> nat {
        1
    }

    open spec fn spec_value(&self) -> u128 {
        *self as u128
    }

    proof fn lemma_size() {
    }

    proof fn lemma_value_fits(&self) {
    }

    fn size() -> (n: usize) {
        1
    }

    fn shift_right(self, n: u8) -> (r: Self) {
        proof {
            lemma_widen_u8(self, n);
        }
        self >> n
    }

    fn cast_to_u8(self) -> (r: u8) {
        self
    }

    fn cast_to_u16(self) -> (r: u16) {
        self as u16
    }

    fn cast_to_u32(self) -> (r: u32) {
        self as u32
    }

    fn cast_to_u64(self) -> (r: u64) {
        self as u64
    }

    fn cast_to_u128(self) -> (r: u128) {
        self as u128
    }

    fn get_low(self) -> (b: bool) {
        proof {
            lemma_widen_u8(self, 0);
        }
        self & 1 == 1
    }
}

/// Shifting, truncating and testing the low bit of a `u16` agree with the
/// same operations on the value widened to 128 bits.
proof fn lemma_widen_u16(x: u16, n: u8)
    by (bit_vector)
    ensures
        n < 16 ==> ((x >> n) as u128) == ((x as u128) >> n),
        (x & 1 == 1) == ((x as u128) & 1 == 1),
        x as u8 == (x as u128) as u8,
{
}

impl AlgorithmOutput for u16 {
    open spec fn spec_size() -> nat {
        2
    }

    open spec fn spec_value(&self) -> u128 {
        *self as u128
    }

    proof fn lemma_size() {
    }

    proof fn lemma_value_fits(&self) {
    }

    fn size() -> (n: usize) {
        2
    }

    fn shift_right(self, n: u8) -> (r: Self) {
        proof {
            lemma_widen_u16(self, n);
        }
        self >> n
    }

    fn cast_to_u8(self) -> (r: u8) {
        proof {
            lemma_widen_u16(self, 0);
        }
        #[verifier::truncate]
        (self as u8)
    }

    fn cast_to_u16(self) -> (r: u16) {
        self
    }

    fn cast_to_u32(self) -> (r: u32) {
        self as u32
    }

    fn cast_to_u64(self) -> (r: u64) {
        self as u64
    }

    fn cast_to_u128(self) -> (r: u128) {
        self as u128
    }

    fn get_low(self) -> (b: bool) {
        proof {
            lemma_widen_u16(self, 0);
        }
        self & 1 == 1
    }
}

/// Shifting, truncating and testing the low bit of a `u32` agree with the
/// same operations on the value widened to 128 bits.
proof fn lemma_widen_u32(x: u32, n: u8)
    by (bit_vector)
    ensures
        n < 32 ==> ((x >> n) as u128) == ((x as u128) >> n),
        (x & 1 == 1) == ((x as u128) & 1 == 1),
        x as u8 == (x as u128) as u8,
        x as u16 == (x as u128) as u16,
{
}

impl AlgorithmOutput for u32 {
    open spec fn spec_size() -> nat {
        4
    }

    open spec fn spec_value(&self) -> u128 {
        *self as u128
    }

    proof fn lemma_size() {
    }

    proof fn lemma_value_fits(&self) {
    }

    fn size() -> (n: usize) {
        4
    }

    fn shift_right(self, n: u8) -> (r: Self) {
        proof {
            lemma_widen_u32(self, n);
        }
        self >> n
    }

    fn cast_to_u8(self) -> (r: u8) {
        proof {
            lemma_widen_u32(self, 0);
        }
        #[verifier::truncate]
        (self as u8)
    }

    fn cast_to_u16(self) -> (r: u16) {
        proof {
            lemma_widen_u32(self, 0);
        }
        #[verifier::truncate]
        (self as u16)
    }

    fn cast_to_u32(self) -> (r: u32) {
        self
    }

    fn cast_to_u64(self) -> (r: u64) {
        self as u64
    }

    fn cast_to_u128(self) -> (r: u128) {
        self as u128
    }

    fn get_low(self) -> (b: bool) {
        proof {
            lemma_widen_u32(self, 0);
        }
        self & 1 == 1
    }
}

/// Shifting, truncating and testing the low bit of a `u64` agree with the
/// same operations on the value widened to 128 bits.
proof fn lemma_widen_u64(x: u64, n: u8)
    by (bit_vector)
    ensures
        n < 64 ==> ((x >> n) as u128) == ((x as u128) >> n),
        (x & 1 == 1) == ((x as u128) & 1 == 1),
        x as u8 == (x as u128) as u8,
        x as u16 == (x as u128) as u16,
        x as u32 == (x as u128) as u32,
{
}

impl AlgorithmOutput for u64 {
    open spec fn spec_size() -> nat {
        8
    }

    open spec fn spec_value(&self) -> u128 {
        *self as u128
    }

    proof fn lemma_size() {
    }

    proof fn lemma_value_fits(&self) {
    }

    fn size() -> (n: usize) {
        8
    }

    fn shift_right(self, n: u8) -> (r: Self) {
        proof {
            lemma_widen_u64(self, n);
        }
        self >> n
    }

    fn cast_to_u8(self) -> (r: u8) {
        proof {
            lemma_widen_u64(self, 0);
        }
        #[verifier::truncate]
        (self as u8)
    }

    fn cast_to_u16(self) -> (r: u16) {
        proof {
            lemma_widen_u64(self, 0);
        }
        #[verifier::truncate]
        (self as u16)
    }

    fn cast_to_u32(self) -> (r: u32) {
        proof {
            lemma_widen_u64(self, 0);
        }
        #[verifier::truncate]
        (self as u32)
    }

    fn cast_to_u64(self) -> (r: u64) {
        self
    }

    fn cast_to_u128(self) -> (r: u128) {
        self as u128
    }

    fn get_low(self) -> (b: bool) {
        proof {
            lemma_widen_u64(self, 0);
        }
        self & 1 == 1
    }
}

impl AlgorithmOutput for u128 {
    open spec fn spec_size() -> nat {
        16
    }

    open spec fn spec_value(&self) -> u128 {
        *self as u128
    }

    proof fn lemma_size() {
    }

    proof fn lemma_value_fits(&self) {
    }

    fn size() -> (n: usize) {
        16
    }

    fn shift_right(self, n: u8) -> (r: Self) {
        self >> n
    }

    fn cast_to_u8(self) -> (r: u8) {
        #[verifier::truncate]
        (self as u8)
    }

    fn cast_to_u16(self) -> (r: u16) {
        #[verifier::truncate]
        (self as u16)
    }

    fn cast_to_u32(self) -> (r: u32) {
        #[verifier::truncate]
        (self as u32)
    }

    fn cast_to_u64(self) -> (r: u64) {
        #[verifier::truncate]
        (self as u64)
    }

    fn cast_to_u128(self) -> (r: u128) {
        self
    }

    fn get_low(self) -> (b: bool) {
        self & 1 == 1
    }
}

} // verus!
