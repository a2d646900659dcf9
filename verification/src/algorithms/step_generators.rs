//! The step generators: plain counters, for diagnostics and benchmarks.
use vstd::prelude::*;
use crate::algorithms::{
    make_1_u128, make_1_u16, make_1_u32, make_1_u64, make_1_u8, make_default_stream, make_stream,
    spec_default_stream, spec_stream,
};
use crate::algorithms::splitmix::SplitMix64;
use crate::smol_core::{spec_nth_draw, spec_steps, Algorithm, AlgorithmOutput, PRNG};

verus! {

/// A counter with 8-bit output: each step adds one, wrapping around.
/// It has no random qualities and serves diagnostics only.
pub struct StepGenerator8 {
    /// The state word.
    pub data: u8,
}

impl Algorithm for StepGenerator8 {
    type Output = u8;

    open spec fn spec_output(&self) -> u8 {
        self.data.wrapping_add(1)
    }

    open spec fn spec_step(&self) -> Self {
        StepGenerator8 { data: self.data.wrapping_add(1) }
    }

    fn gen(&mut self) -> (r: u8) {
        self.data = self.data.wrapping_add(1);
        self.data
    }
}

impl StepGenerator8 {
    /// The state that the seeding stream `stream` gives:
    /// its first 8-bit draw.
    pub open spec fn spec_seeded(stream: SplitMix64) -> Self {
        StepGenerator8 {
            data: spec_nth_draw(stream, 1, 0) as u8,
        }
    }
}

impl Default for StepGenerator8 {
    /// The engine in the state that the default seeding stream gives.
    fn default() -> (r: Self)
        ensures
            r == StepGenerator8::spec_seeded(spec_default_stream()),
    {
        let data = make_1_u8(PRNG { generator: make_default_stream() });
        StepGenerator8 { data }
    }
}

impl<T: AlgorithmOutput> From<T> for StepGenerator8 {
    /// The engine in the state that the seeding stream of `value` gives.
    fn from(value: T) -> (r: Self) {
        let data = make_1_u8(PRNG { generator: make_stream(value) });
        StepGenerator8 { data }
    }
}

impl<T: AlgorithmOutput> vstd::std_specs::convert::FromSpecImpl<T> for StepGenerator8 {
    open spec fn obeys_from_spec() -> bool {
        true
    }

    open spec fn from_spec(value: T) -> Self {
        StepGenerator8::spec_seeded(spec_stream(value.spec_value()))
    }
}

/// A 8-bit step generator counts up from its state: after `n` steps the
/// state has advanced by `n`, and the next output is one more, both modulo
/// 2^8.
pub proof fn lemma_step_generator8_counts(g: StepGenerator8, n: nat)
    ensures
        spec_steps(g, n).data == (g.data + n) % 0x1_00,
        spec_steps(g, n).spec_output() == (g.data + n + 1) % 0x1_00,
    decreases n,
{
    if n > 0 {
        lemma_step_generator8_counts(g, (n - 1) as nat);
    }
}

/// A counter with 16-bit output: each step adds one, wrapping around.
/// It has no random qualities and serves diagnostics only.
pub struct StepGenerator16 {
    /// The state word.
    pub data: u16,
}

impl Algorithm for StepGenerator16 {
    type Output = u16;

    open spec fn spec_output(&self) -> u16 {
        self.data.wrapping_add(1)
    }

    open spec fn spec_step(&self) -> Self {
        StepGenerator16 { data: self.data.wrapping_add(1) }
    }

    fn gen(&mut self) -> (r: u16) {
        self.data = self.data.wrapping_add(1);
        self.data
    }
}

impl StepGenerator16 {
    /// The state that the seeding stream `stream` gives:
    /// its first 16-bit draw.
    pub open spec fn spec_seeded(stream: SplitMix64) -> Self {
        StepGenerator16 {
            data: spec_nth_draw(stream, 2, 0) as u16,
        }
    }
}

impl Default for StepGenerator16 {
    /// The engine in the state that the default seeding stream gives.
    fn default() -> (r: Self)
        ensures
            r == StepGenerator16::spec_seeded(spec_default_stream()),
    {
        let data = make_1_u16(PRNG { generator: make_default_stream() });
        StepGenerator16 { data }
    }
}

impl<T: AlgorithmOutput> From<T> for StepGenerator16 {
    /// The engine in the state that the seeding stream of `value` gives.
    fn from(value: T) -> (r: Self) {
        let data = make_1_u16(PRNG { generator: make_stream(value) });
        StepGenerator16 { data }
    }
}

impl<T: AlgorithmOutput> vstd::std_specs::convert::FromSpecImpl<T> for StepGenerator16 {
    open spec fn obeys_from_spec() -> bool {
        true
    }

    open spec fn from_spec(value: T) -> Self {
        StepGenerator16::spec_seeded(spec_stream(value.spec_value()))
    }
}

/// A 16-bit step generator counts up from its state: after `n` steps the
/// state has advanced by `n`, and the next output is one more, both modulo
/// 2^16.
pub proof fn lemma_step_generator16_counts(g: StepGenerator16, n: nat)
    ensures
        spec_steps(g, n).data == (g.data + n) % 0x1_0000,
        spec_steps(g, n).spec_output() == (g.data + n + 1) % 0x1_0000,
    decreases n,
{
    if n > 0 {
        lemma_step_generator16_counts(g, (n - 1) as nat);
    }
}

/// A counter with 32-bit output: each step adds one, wrapping around.
/// It has no random qualities and serves diagnostics only.
pub struct StepGenerator32 {
    /// The state word.
    pub data: u32,
}

impl Algorithm for StepGenerator32 {
    type Output = u32;

    open spec fn spec_output(&self) -> u32 {
        self.data.wrapping_add(1)
    }

    open spec fn spec_step(&self) -> Self {
        StepGenerator32 { data: self.data.wrapping_add(1) }
    }

    fn gen(&mut self) -> (r: u32) {
        self.data = self.data.wrapping_add(1);
        self.data
    }
}

impl StepGenerator32 {
    /// The state that the seeding stream `stream` gives:
    /// its first 32-bit draw.
    pub open spec fn spec_seeded(stream: SplitMix64) -> Self {
        StepGenerator32 {
            data: spec_nth_draw(stream, 4, 0) as u32,
        }
    }
}

impl Default for StepGenerator32 {
    /// The engine in the state that the default seeding stream gives.
    fn default() -> (r: Self)
        ensures
            r == StepGenerator32::spec_seeded(spec_default_stream()),
    {
        let data = make_1_u32(PRNG { generator: make_default_stream() });
        StepGenerator32 { data }
    }
}

impl<T: AlgorithmOutput> From<T> for StepGenerator32 {
    /// The engine in the state that the seeding stream of `value` gives.
    fn from(value: T) -> (r: Self) {
        let data = make_1_u32(PRNG { generator: make_stream(value) });
        StepGenerator32 { data }
    }
}

impl<T: AlgorithmOutput> vstd::std_specs::convert::FromSpecImpl<T> for StepGenerator32 {
    open spec fn obeys_from_spec() -> bool {
        true
    }

    open spec fn from_spec(value: T) -> Self {
        StepGenerator32::spec_seeded(spec_stream(value.spec_value()))
    }
}

/// A 32-bit step generator counts up from its state: after `n` steps the
/// state has advanced by `n`, and the next output is one more, both modulo
/// 2^32.
pub proof fn lemma_step_generator32_counts(g: StepGenerator32, n: nat)
    ensures
        spec_steps(g, n).data == (g.data + n) % 0x1_0000_0000,
        spec_steps(g, n).spec_output() == (g.data + n + 1) % 0x1_0000_0000,
    decreases n,
{
    if n > 0 {
        lemma_step_generator32_counts(g, (n - 1) as nat);
    }
}

/// A counter with 64-bit output: each step adds one, wrapping around.
/// It has no random qualities and serves diagnostics only.
pub struct StepGenerator64 {
    /// The state word.
    pub data: u64,
}

impl Algorithm for StepGenerator64 {
    type Output = u64;

    open spec fn spec_output(&self) -> u64 {
        self.data.wrapping_add(1)
    }

    open spec fn spec_step(&self) -> Self {
        StepGenerator64 { data: self.data.wrapping_add(1) }
    }

    fn gen(&mut self) -> (r: u64) {
        self.data = self.data.wrapping_add(1);
        self.data
    }
}

impl StepGenerator64 {
    /// The state that the seeding stream `stream` gives:
    /// its first 64-bit draw.
    pub open spec fn spec_seeded(stream: SplitMix64) -> Self {
        StepGenerator64 {
            data: spec_nth_draw(stream, 8, 0) as u64,
        }
    }
}

impl Default for StepGenerator64 {
    /// The engine in the state that the default seeding stream gives.
    fn default() -> (r: Self)
        ensures
            r == StepGenerator64::spec_seeded(spec_default_stream()),
    {
        let data = make_1_u64(PRNG { generator: make_default_stream() });
        StepGenerator64 { data }
    }
}

impl<T: AlgorithmOutput> From<T> for StepGenerator64 {
    /// The engine in the state that the seeding stream of `value` gives.
    fn from(value: T) -> (r: Self) {
        let data = make_1_u64(PRNG { generator: make_stream(value) });
        StepGenerator64 { data }
    }
}

impl<T: AlgorithmOutput> vstd::std_specs::convert::FromSpecImpl<T> for StepGenerator64 {
    open spec fn obeys_from_spec() -> bool {
        true
    }

    open spec fn from_spec(value: T) -> Self {
        StepGenerator64::spec_seeded(spec_stream(value.spec_value()))
    }
}

/// A 64-bit step generator counts up from its state: after `n` steps the
/// state has advanced by `n`, and the next output is one more, both modulo
/// 2^64.
pub proof fn lemma_step_generator64_counts(g: StepGenerator64, n: nat)
    ensures
        spec_steps(g, n).data == (g.data + n) % 0x1_0000_0000_0000_0000,
        spec_steps(g, n).spec_output() == (g.data + n + 1) % 0x1_0000_0000_0000_0000,
    decreases n,
{
    if n > 0 {
        lemma_step_generator64_counts(g, (n - 1) as nat);
    }
}

/// A counter with 128-bit output: each step adds one, wrapping around.
/// It has no random qualities and serves diagnostics only.
pub struct StepGenerator128 {
    /// The state word.
    pub data: u128,
}

impl Algorithm for StepGenerator128 {
    type Output = u128;

    open spec fn spec_output(&self) -> u128 {
        self.data.wrapping_add(1)
    }

    open spec fn spec_step(&self) -> Self {
        StepGenerator128 { data: self.data.wrapping_add(1) }
    }

    fn gen(&mut self) -> (r: u128) {
        self.data = self.data.wrapping_add(1);
        self.data
    }
}

impl StepGenerator128 {
    /// The state that the seeding stream `stream` gives:
    /// its first 128-bit draw.
    pub open spec fn spec_seeded(stream: SplitMix64) -> Self {
        StepGenerator128 {
            data: spec_nth_draw(stream, 16, 0),
        }
    }
}

impl Default for StepGenerator128 {
    /// The engine in the state that the default seeding stream gives.
    fn default() -> (r: Self)
        ensures
            r == StepGenerator128::spec_seeded(spec_default_stream()),
    {
        let data = make_1_u128(PRNG { generator: make_default_stream() });
        StepGenerator128 { data }
    }
}

impl<T: AlgorithmOutput> From<T> for StepGenerator128 {
    /// The engine in the state that the seeding stream of `value` gives.
    fn from(value: T) -> (r: Self) {
        let data = make_1_u128(PRNG { generator: make_stream(value) });
        StepGenerator128 { data }
    }
}

impl<T: AlgorithmOutput> vstd::std_specs::convert::FromSpecImpl<T> for StepGenerator128 {
    open spec fn obeys_from_spec() -> bool {
        true
    }

    open spec fn from_spec(value: T) -> Self {
        StepGenerator128::spec_seeded(spec_stream(value.spec_value()))
    }
}

/// A 128-bit step generator counts up from its state: after `n` steps the
/// state has advanced by `n`, and the next output is one more, both modulo
/// 2^128.
pub proof fn lemma_step_generator128_counts(g: StepGenerator128, n: nat)
    ensures
        spec_steps(g, n).data == (g.data + n) % (u128::MAX + 1),
        spec_steps(g, n).spec_output() == (g.data + n + 1) % (u128::MAX + 1),
    decreases n,
{
    if n > 0 {
        lemma_step_generator128_counts(g, (n - 1) as nat);
    }
}

} // verus!
