//! The four-word rotate, add and xor counter mix.
use vstd::prelude::*;
use crate::algorithms::rotate::{rotl64, spec_rotl64};
use crate::algorithms::{
    make_4_u64, make_default_stream, make_stream, spec_default_stream, spec_stream,
};
use crate::algorithms::splitmix::SplitMix64;
use crate::smol_core::{spec_nth_draw, Algorithm, AlgorithmOutput, PRNG};

verus! {

/// The word that a step of the counter mix subtracts out of the first state
/// word and folds back into the last two.
pub open spec fn jsf_carry(data: [u64; 4]) -> u64 {
    data[0].wrapping_sub(spec_rotl64(data[1], 7))
}

/// State of the 64-bit four-word counter mix after Bob Jenkins.
pub struct JsfLarge {
    /// The state words.
    pub data: [u64; 4],
}

impl Algorithm for JsfLarge {
    type Output = u64;

    open spec fn spec_output(&self) -> u64 {
        jsf_carry(self.data).wrapping_add(self.data[1] ^ spec_rotl64(self.data[2], 13))
    }

    open spec fn spec_step(&self) -> Self {
        let e = jsf_carry(self.data);
        let a = self.data[1] ^ spec_rotl64(self.data[2], 13);
        let b = self.data[1].wrapping_add(spec_rotl64(self.data[3], 37));
        JsfLarge { data: [a, b, b.wrapping_add(e), e.wrapping_add(a)] }
    }

    fn gen(&mut self) -> (r: u64) {
        let e: u64 = self.data[0].wrapping_sub(rotl64(self.data[1], 7));
        let a: u64 = self.data[1] ^ rotl64(self.data[2], 13);
        let b: u64 = self.data[1].wrapping_add(rotl64(self.data[3], 37));
        let c: u64 = b.wrapping_add(e);
        let d: u64 = e.wrapping_add(a);
        self.data = [a, b, c, d];
        d
    }
}

impl JsfLarge {
    /// The state that the seeding stream `stream` gives:
    /// its first four 64-bit draws.
    pub open spec fn spec_seeded(stream: SplitMix64) -> Self {
        JsfLarge {
            data: [
                spec_nth_draw(stream, 8, 0) as u64,
                spec_nth_draw(stream, 8, 1) as u64,
                spec_nth_draw(stream, 8, 2) as u64,
                spec_nth_draw(stream, 8, 3) as u64,
            ],
        }
    }
}

impl Default for JsfLarge {
    /// The engine in the state that the default seeding stream gives.
    fn default() -> (r: Self)
        ensures
            r == JsfLarge::spec_seeded(spec_default_stream()),
    {
        let data = make_4_u64(PRNG { generator: make_default_stream() });
        assert(data =~= JsfLarge::spec_seeded(spec_default_stream()).data);
        JsfLarge { data }
    }
}

impl<T: AlgorithmOutput> From<T> for JsfLarge {
    /// The engine in the state that the seeding stream of `value` gives.
    fn from(value: T) -> (r: Self) {
        let data = make_4_u64(PRNG { generator: make_stream(value) });
        assert(data =~= JsfLarge::spec_seeded(spec_stream(value.spec_value())).data);
        JsfLarge { data }
    }
}

impl<T: AlgorithmOutput> vstd::std_specs::convert::FromSpecImpl<T> for JsfLarge {
    open spec fn obeys_from_spec() -> bool {
        true
    }

    open spec fn from_spec(value: T) -> Self {
        JsfLarge::spec_seeded(spec_stream(value.spec_value()))
    }
}

} // verus!
