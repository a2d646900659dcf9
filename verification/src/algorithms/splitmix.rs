//! The SplitMix engines.
use vstd::prelude::*;
use crate::algorithms::{
    make_1_u64, make_2_u64, make_default_stream, make_stream, spec_default_stream, spec_stream,
};
use crate::smol_core::{spec_nth_draw, Algorithm, AlgorithmOutput, PRNG};

verus! {

/// The SplitMix64 output function: three xorshift rounds, two of them
/// followed by a multiplication.
pub open spec fn splitmix64_mix(z: u64) -> u64 {
    let a = (z ^ (z >> 30u64)).wrapping_mul(0xBF58476D1CE4E5B9u64);
    let b = (a ^ (a >> 27u64)).wrapping_mul(0x94D049BB133111EBu64);
    b ^ (b >> 31u64)
}

/// The output function of the 32-bit SplitMix variant, before the top half is
/// taken.
pub open spec fn splitmix32_mix(z: u64) -> u64 {
    let a = (z ^ (z >> 33u64)).wrapping_mul(0x62a9d9ed799705f5u64);
    (a ^ (a >> 28u64)).wrapping_mul(0xcb24d0a5c88c35b3u64)
}

/// State of the 32-bit-output SplitMix engine: a counter and its increment.
pub struct SplitMix32 {
    /// The state words.
    pub data: [u64; 2],
}

impl Algorithm for SplitMix32 {
    type Output = u32;

    open spec fn spec_output(&self) -> u32 {
        (splitmix32_mix(self.data[0]) >> 32u64) as u32
    }

    open spec fn spec_step(&self) -> Self {
        let gamma = self.data[1] | 1u64;
        SplitMix32 { data: [self.data[0].wrapping_add(gamma), gamma] }
    }

    fn gen(&mut self) -> (r: u32) {
        // the increment must be odd for the counter to have full period
        let gamma: u64 = self.data[1] | 1;
        let mut seed: u64 = self.data[0];
        self.data = [seed.wrapping_add(gamma), gamma];
        seed ^= seed >> 33;
        seed = seed.wrapping_mul(0x62a9d9ed799705f5u64);
        seed ^= seed >> 28;
        seed = seed.wrapping_mul(0xcb24d0a5c88c35b3u64);
        #[verifier::truncate]
        ((seed >> 32) as u32)
    }
}

impl SplitMix32 {
    /// The state that the seeding stream `stream` gives:
    /// its first two 64-bit draws.
    pub open spec fn spec_seeded(stream: SplitMix64) -> Self {
        SplitMix32 {
            data: [
                spec_nth_draw(stream, 8, 0) as u64,
                spec_nth_draw(stream, 8, 1) as u64,
            ],
        }
    }
}

impl Default for SplitMix32 {
    /// The engine in the state that the default seeding stream gives.
    fn default() -> (r: Self)
        ensures
            r == SplitMix32::spec_seeded(spec_default_stream()),
    {
        let data = make_2_u64(PRNG { generator: make_default_stream() });
        assert(data =~= SplitMix32::spec_seeded(spec_default_stream()).data);
        SplitMix32 { data }
    }
}

impl<T: AlgorithmOutput> From<T> for SplitMix32 {
    /// The engine in the state that the seeding stream of `value` gives.
    fn from(value: T) -> (r: Self) {
        let data = make_2_u64(PRNG { generator: make_stream(value) });
        assert(data =~= SplitMix32::spec_seeded(spec_stream(value.spec_value())).data);
        SplitMix32 { data }
    }
}

impl<T: AlgorithmOutput> vstd::std_specs::convert::FromSpecImpl<T> for SplitMix32 {
    open spec fn obeys_from_spec() -> bool {
        true
    }

    open spec fn from_spec(value: T) -> Self {
        SplitMix32::spec_seeded(spec_stream(value.spec_value()))
    }
}

/// State of the SplitMix64 engine: a single 64-bit counter.
/// It is also the stream that seeds every engine.
pub struct SplitMix64 {
    /// The state word.
    pub data: u64,
}

impl Algorithm for SplitMix64 {
    type Output = u64;

    open spec fn spec_output(&self) -> u64 {
        splitmix64_mix(self.data.wrapping_add(0x9E3779B97f4A7C15u64))
    }

    open spec fn spec_step(&self) -> Self {
        SplitMix64 { data: self.data.wrapping_add(0x9E3779B97f4A7C15u64) }
    }

    fn gen(&mut self) -> (r: u64) {
        self.data = self.data.wrapping_add(0x9E3779B97f4A7C15u64);
        let mut result: u64 = self.data;
        result = result ^ (result >> 30);
        result = result.wrapping_mul(0xBF58476D1CE4E5B9u64);
        result = result ^ (result >> 27);
        result = result.wrapping_mul(0x94D049BB133111EBu64);
        result ^ (result >> 31)
    }
}

impl SplitMix64 {
    /// The state that the seeding stream `stream` gives:
    /// its first 64-bit draw.
    pub open spec fn spec_seeded(stream: SplitMix64) -> Self {
        SplitMix64 {
            data: spec_nth_draw(stream, 8, 0) as u64,
        }
    }
}

impl Default for SplitMix64 {
    /// The engine in the state that the default seeding stream gives.
    fn default() -> (r: Self)
        ensures
            r == SplitMix64::spec_seeded(spec_default_stream()),
    {
        let data = make_1_u64(PRNG { generator: make_default_stream() });
        SplitMix64 { data }
    }
}

impl<T: AlgorithmOutput> From<T> for SplitMix64 {
    /// The engine in the state that the seeding stream of `value` gives.
    fn from(value: T) -> (r: Self) {
        let data = make_1_u64(PRNG { generator: make_stream(value) });
        SplitMix64 { data }
    }
}

impl<T: AlgorithmOutput> vstd::std_specs::convert::FromSpecImpl<T> for SplitMix64 {
    open spec fn obeys_from_spec() -> bool {
        true
    }

    open spec fn from_spec(value: T) -> Self {
        SplitMix64::spec_seeded(spec_stream(value.spec_value()))
    }
}

} // verus!
