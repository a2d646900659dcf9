//! The SFC family of engines.
use vstd::prelude::*;
use crate::algorithms::{
    make_1_u32, make_4_u32, make_default_stream, make_stream, spec_default_stream, spec_stream,
};
use crate::algorithms::splitmix::SplitMix64;
use crate::smol_core::{spec_nth_draw, Algorithm, AlgorithmOutput, PRNG};

verus! {

/// The output function of the small SFC variant, applied to the advanced
/// counter.
pub open spec fn sfc32_small_mix(z: u32) -> u32 {
    let a = z.wrapping_mul(0x85ebca6bu32);
    let b = (a ^ (a >> 13u32)).wrapping_mul(0xc2b2ae35u32);
    b ^ (b >> 16u32)
}

/// State of the SFC32 engine: three mixing words and a counter.
pub struct Sfc32 {
    /// The state words.
    pub data: [u32; 4],
}

impl Algorithm for Sfc32 {
    type Output = u32;

    open spec fn spec_output(&self) -> u32 {
        self.data[0].wrapping_add(self.data[1]).wrapping_add(self.data[2])
    }

    open spec fn spec_step(&self) -> Self {
        let t = self.data[0].wrapping_add(self.data[1]).wrapping_add(self.data[2]);
        let b = self.data[1] ^ (self.data[2] << 3u32);
        Sfc32 {
            data: [
                self.data[0] ^ (self.data[1] >> 9u32),
                b,
                ((self.data[2] << 21u32) | (b >> 11u32)).wrapping_add(t),
                self.data[3].wrapping_add(1),
            ],
        }
    }

    fn gen(&mut self) -> (r: u32) {
        let counter: u32 = self.data[3].wrapping_add(1);
        let t: u32 = self.data[0].wrapping_add(self.data[1]).wrapping_add(self.data[2]);
        let a: u32 = self.data[0] ^ (self.data[1] >> 9);
        let b: u32 = self.data[1] ^ (self.data[2] << 3);
        let c: u32 = ((self.data[2] << 21) | (b >> 11)).wrapping_add(t);
        self.data = [a, b, c, counter];
        t
    }
}

impl Sfc32 {
    /// The state that the seeding stream `stream` gives:
    /// its first four 32-bit draws.
    pub open spec fn spec_seeded(stream: SplitMix64) -> Self {
        Sfc32 {
            data: [
                spec_nth_draw(stream, 4, 0) as u32,
                spec_nth_draw(stream, 4, 1) as u32,
                spec_nth_draw(stream, 4, 2) as u32,
                spec_nth_draw(stream, 4, 3) as u32,
            ],
        }
    }
}

impl Default for Sfc32 {
    /// The engine in the state that the default seeding stream gives.
    fn default() -> (r: Self)
        ensures
            r == Sfc32::spec_seeded(spec_default_stream()),
    {
        let data = make_4_u32(PRNG { generator: make_default_stream() });
        assert(data =~= Sfc32::spec_seeded(spec_default_stream()).data);
        Sfc32 { data }
    }
}

impl<T: AlgorithmOutput> From<T> for Sfc32 {
    /// The engine in the state that the seeding stream of `value` gives.
    fn from(value: T) -> (r: Self) {
        let data = make_4_u32(PRNG { generator: make_stream(value) });
        assert(data =~= Sfc32::spec_seeded(spec_stream(value.spec_value())).data);
        Sfc32 { data }
    }
}

impl<T: AlgorithmOutput> vstd::std_specs::convert::FromSpecImpl<T> for Sfc32 {
    open spec fn obeys_from_spec() -> bool {
        true
    }

    open spec fn from_spec(value: T) -> Self {
        Sfc32::spec_seeded(spec_stream(value.spec_value()))
    }
}

/// State of the small SFC variant: a single 32-bit counter.
pub struct Sfc32Small {
    /// The state word.
    pub data: u32,
}

impl Algorithm for Sfc32Small {
    type Output = u32;

    open spec fn spec_output(&self) -> u32 {
        sfc32_small_mix(self.data.wrapping_add(0x9e3779b9u32))
    }

    open spec fn spec_step(&self) -> Self {
        Sfc32Small { data: self.data.wrapping_add(0x9e3779b9u32) }
    }

    fn gen(&mut self) -> (r: u32) {
        self.data = self.data.wrapping_add(0x9e3779b9u32);
        let mut z: u32 = self.data;
        z = z.wrapping_mul(0x85ebca6bu32);
        z ^= z >> 13;
        z = z.wrapping_mul(0xc2b2ae35u32);
        z ^= z >> 16;
        z
    }
}

impl Sfc32Small {
    /// The state that the seeding stream `stream` gives:
    /// its first 32-bit draw.
    pub open spec fn spec_seeded(stream: SplitMix64) -> Self {
        Sfc32Small {
            data: spec_nth_draw(stream, 4, 0) as u32,
        }
    }
}

impl Default for Sfc32Small {
    /// The engine in the state that the default seeding stream gives.
    fn default() -> (r: Self)
        ensures
            r == Sfc32Small::spec_seeded(spec_default_stream()),
    {
        let data = make_1_u32(PRNG { generator: make_default_stream() });
        Sfc32Small { data }
    }
}

impl<T: AlgorithmOutput> From<T> for Sfc32Small {
    /// The engine in the state that the seeding stream of `value` gives.
    fn from(value: T) -> (r: Self) {
        let data = make_1_u32(PRNG { generator: make_stream(value) });
        Sfc32Small { data }
    }
}

impl<T: AlgorithmOutput> vstd::std_specs::convert::FromSpecImpl<T> for Sfc32Small {
    open spec fn obeys_from_spec() -> bool {
        true
    }

    open spec fn from_spec(value: T) -> Self {
        Sfc32Small::spec_seeded(spec_stream(value.spec_value()))
    }
}

} // verus!
