//! The improved middle-square engine.
use vstd::prelude::*;
use crate::algorithms::{
    make_4_u64, make_default_stream, make_stream, spec_default_stream, spec_stream,
};
use crate::algorithms::splitmix::SplitMix64;
use crate::smol_core::{spec_nth_draw, Algorithm, AlgorithmOutput, PRNG};

verus! {

/// The squared and Weyl-shifted word of the middle-square step, with its two
/// halves swapped.
pub open spec fn middle_square_word(x: u64, w: u64) -> u64 {
    let y = x.wrapping_mul(x).wrapping_add(w);
    (y >> 32u64) | (y << 32u64)
}

/// State of the middle-square engine with a Weyl sequence: the squared word,
/// the Weyl counter and its increment. The fourth word is seeded but unused.
pub struct MiddleSquare {
    /// The state words.
    pub data: [u64; 4],
}

impl Algorithm for MiddleSquare {
    type Output = u32;

    open spec fn spec_output(&self) -> u32 {
        (middle_square_word(self.data[0], self.data[1].wrapping_add(self.data[2])) >> 32u64) as u32
    }

    open spec fn spec_step(&self) -> Self {
        let w = self.data[1].wrapping_add(self.data[2]);
        MiddleSquare { data: [middle_square_word(self.data[0], w), w, self.data[2], self.data[3]] }
    }

    fn gen(&mut self) -> (r: u32) {
        let mut x: u64 = self.data[0];
        let w: u64 = self.data[1].wrapping_add(self.data[2]);
        x = x.wrapping_mul(x);
        x = x.wrapping_add(w);
        x = (x >> 32) | (x << 32);
        self.data = [x, w, self.data[2], self.data[3]];
        #[verifier::truncate]
        ((x >> 32) as u32)
    }
}

impl MiddleSquare {
    /// The state that the seeding stream `stream` gives:
    /// its first four 64-bit draws.
    pub open spec fn spec_seeded(stream: SplitMix64) -> Self {
        MiddleSquare {
            data: [
                spec_nth_draw(stream, 8, 0) as u64,
                spec_nth_draw(stream, 8, 1) as u64,
                spec_nth_draw(stream, 8, 2) as u64,
                spec_nth_draw(stream, 8, 3) as u64,
            ],
        }
    }
}

impl Default for MiddleSquare {
    /// The engine in the state that the default seeding stream gives.
    fn default() -> (r: Self)
        ensures
            r == MiddleSquare::spec_seeded(spec_default_stream()),
    {
        let data = make_4_u64(PRNG { generator: make_default_stream() });
        assert(data =~= MiddleSquare::spec_seeded(spec_default_stream()).data);
        MiddleSquare { data }
    }
}

impl<T: AlgorithmOutput> From<T> for MiddleSquare {
    /// The engine in the state that the seeding stream of `value` gives.
    fn from(value: T) -> (r: Self) {
        let data = make_4_u64(PRNG { generator: make_stream(value) });
        assert(data =~= MiddleSquare::spec_seeded(spec_stream(value.spec_value())).data);
        MiddleSquare { data }
    }
}

impl<T: AlgorithmOutput> vstd::std_specs::convert::FromSpecImpl<T> for MiddleSquare {
    open spec fn obeys_from_spec() -> bool {
        true
    }

    open spec fn from_spec(value: T) -> Self {
        MiddleSquare::spec_seeded(spec_stream(value.spec_value()))
    }
}

} // verus!
