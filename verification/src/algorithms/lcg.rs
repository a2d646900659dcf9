//! The linear congruential engine.
use vstd::prelude::*;
use crate::algorithms::{
    make_1_u64, make_default_stream, make_stream, spec_default_stream, spec_stream,
};
use crate::algorithms::splitmix::SplitMix64;
use crate::smol_core::{spec_nth_draw, Algorithm, AlgorithmOutput, PRNG};

verus! {

/// State of the 64-bit linear congruential engine, with Knuth's parameters.
/// Fast, but of poor statistical quality.
pub struct LCG {
    /// The state word.
    pub data: u64,
}

impl Algorithm for LCG {
    type Output = u64;

    open spec fn spec_output(&self) -> u64 {
        self.data
    }

    open spec fn spec_step(&self) -> Self {
        LCG { data: self.data.wrapping_mul(2862933555777941757u64).wrapping_add(1013904243u64) }
    }

    fn gen(&mut self) -> (r: u64) {
        let m: u64 = 2862933555777941757u64;
        let a: u64 = 1013904243u64;
        let value: u64 = self.data;
        self.data = self.data.wrapping_mul(m).wrapping_add(a);
        value
    }
}

impl LCG {
    /// The state that the seeding stream `stream` gives:
    /// its first 64-bit draw.
    pub open spec fn spec_seeded(stream: SplitMix64) -> Self {
        LCG {
            data: spec_nth_draw(stream, 8, 0) as u64,
        }
    }
}

impl Default for LCG {
    /// The engine in the state that the default seeding stream gives.
    fn default() -> (r: Self)
        ensures
            r == LCG::spec_seeded(spec_default_stream()),
    {
        let data = make_1_u64(PRNG { generator: make_default_stream() });
        LCG { data }
    }
}

impl<T: AlgorithmOutput> From<T> for LCG {
    /// The engine in the state that the seeding stream of `value` gives.
    fn from(value: T) -> (r: Self) {
        let data = make_1_u64(PRNG { generator: make_stream(value) });
        LCG { data }
    }
}

impl<T: AlgorithmOutput> vstd::std_specs::convert::FromSpecImpl<T> for LCG {
    open spec fn obeys_from_spec() -> bool {
        true
    }

    open spec fn from_spec(value: T) -> Self {
        LCG::spec_seeded(spec_stream(value.spec_value()))
    }
}

} // verus!
