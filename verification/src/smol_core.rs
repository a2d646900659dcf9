//! The generator front end `PRNG`, the engine contract `Algorithm`, and the
//! native output contract `AlgorithmOutput`.
use vstd::arithmetic::power2::{lemma2_to64, pow2};
use vstd::prelude::*;

pub mod output;
pub mod range;
pub mod unit;
pub mod width;

pub use output::{max_value, supported_size, AlgorithmOutput};
pub use range::{
    lemma_draw_in_empty_range, lemma_draw_in_range_monotone, lemma_draw_in_range_sound,
    lemma_mask_unbiased, lemma_range_mask_least, range_mask, spec_draw_in_range,
};
pub use unit::{
    f32_unit_bits, f64_unit_bits, lemma_binomial_always, lemma_binomial_bound,
    lemma_binomial_never, spec_bernoulli, spec_binomial, spec_draw_mantissa,
};
pub use width::{
    draw_steps, join, lemma_draw_double, lemma_draw_fits, lemma_draw_narrow, lemma_draw_native,
    lemma_draw_steps, lemma_join_injective, lemma_join_surjective, lemma_low_bit_unbiased,
    lemma_top_bytes_bound, spec_draw, spec_draw_bool, spec_nth_draw, top_bytes,
};

verus! {

/// A bit-generation engine: a state that yields one native output per step.
///
/// Both the output and the successor state are functions of the current
/// state alone, so equal states produce equal output sequences. An engine
/// states the two functions as its model, and its step has to follow them.
pub trait Algorithm: Sized {
    /// The native output type of the engine.
    type Output: AlgorithmOutput;

    /// The value that the next step returns.
    spec fn spec_output(&self) -> Self::Output;

    /// The state that the next step leaves behind.
    spec fn spec_step(&self) -> Self;

    /// Advances the state by one step and returns the native output.
    fn gen(&mut self) -> (r: Self::Output)
        ensures
            r == old(self).spec_output(),
            *final(self) == old(self).spec_step(),
    ;
}

/// The generator front end: an engine together with the derived draws.
pub struct PRNG<T: Algorithm> {
    /// The engine that feeds the generator.
    pub generator: T,
}

/// The engine state `n` steps after `g`.
pub open spec fn spec_steps<T: Algorithm>(g: T, n: nat) -> T
    decreases n,
{
    if n == 0 {
        g
    } else {
        spec_steps(g, (n - 1) as nat).spec_step()
    }
}

/// The first `n` native outputs of an engine that starts in state `g`.
pub open spec fn spec_outputs<T: Algorithm>(g: T, n: nat) -> Seq<T::Output> {
    Seq::new(n, |i: int| spec_steps(g, i as nat).spec_output())
}

impl<T: Algorithm> PRNG<T> {
    /// Takes the next `n` native outputs of the engine, in order.
    pub fn take_native(&mut self, n: usize) -> (out: Vec<T::Output>)
        ensures
            out@ == spec_outputs(old(self).generator, n as nat),
            final(self).generator == spec_steps(old(self).generator, n as nat),
    {
        let ghost start = self.generator;
        let mut out: Vec<T::Output> = Vec::new();
        let mut i: usize = 0;
        while i < n
            invariant
                i <= n,
                self.generator == spec_steps(start, i as nat),
                out@ =~= spec_outputs(start, i as nat),
            decreases n - i,
        {
            let v = self.generator.gen();
            out.push(v);
            i += 1;
        }
        out
    }
}

/// Every engine's native width is 1, 2, 4, 8 or 16 bytes, a power of two.
/// An output type of any other width cannot implement the output contract,
/// so no draw has to check the width at run time.
pub proof fn lemma_native_size<T: Algorithm>()
    ensures
        supported_size(T::Output::spec_size()),
        exists|k: nat| k <= 4 && T::Output::spec_size() == pow2(k),
{
    T::Output::lemma_size();
    lemma2_to64();
    let n = T::Output::spec_size();
    let k: nat = if n == 1 {
        0
    } else if n == 2 {
        1
    } else if n == 4 {
        2
    } else if n == 8 {
        3
    } else {
        4
    };
    assert(k <= 4 && n == pow2(k));
}

/// Taking `a` steps and then `b` steps is taking `a + b` steps.
pub proof fn lemma_steps_add<T: Algorithm>(g: T, a: nat, b: nat)
    ensures
        spec_steps(spec_steps(g, a), b) == spec_steps(g, a + b),
    decreases b,
{
    if b > 0 {
        lemma_steps_add(g, a, (b - 1) as nat);
    }
}

/// Determinism: engines in equal states give equal draws of every width,
/// equal boolean and range-limited draws, equal successor states and equal
/// output sequences of every length.
pub proof fn lemma_deterministic<T: Algorithm>(g1: T, g2: T, m: nat, n: nat, range: u8)
    requires
        g1 == g2,
    ensures
        spec_draw(g1, m) == spec_draw(g2, m),
        spec_nth_draw(g1, m, n) == spec_nth_draw(g2, m, n),
        spec_draw_bool(g1) == spec_draw_bool(g2),
        spec_draw_in_range(g1, range, n) == spec_draw_in_range(g2, range, n),
        spec_steps(g1, n) == spec_steps(g2, n),
        spec_outputs(g1, n) == spec_outputs(g2, n),
{
}

} // verus!
