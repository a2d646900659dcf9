//! The XorShift family of engines.
use vstd::prelude::*;
use crate::algorithms::{
    make_1_u32, make_1_u64, make_2_u64, make_4_u32, make_default_stream, make_stream,
    spec_default_stream, spec_stream,
};
use crate::algorithms::splitmix::SplitMix64;
use crate::smol_core::{spec_nth_draw, spec_steps, Algorithm, AlgorithmOutput, PRNG};

verus! {

/// One XorShift32 transition: shifts of 13, 17 and 5.
pub open spec fn xorshift32_next(x: u32) -> u32 {
    let a = x ^ (x << 13u32);
    let b = a ^ (a >> 17u32);
    b ^ (b << 5u32)
}

/// One XorShift64 transition: shifts of 13, 7 and 17.
pub open spec fn xorshift64_next(x: u64) -> u64 {
    let a = x ^ (x << 13u64);
    let b = a ^ (a >> 7u64);
    b ^ (b << 17u64)
}

/// The new first word of XorShift128, from the old last word `t` and the old
/// first word `s`.
pub open spec fn xorshift128_next(t: u32, s: u32) -> u32 {
    let a = t ^ (t << 11u32);
    let b = a ^ (a >> 8u32);
    b ^ s ^ (s >> 19u32)
}

/// The new second word of XorShift128+, from the old first word `s1` and the
/// old second word `s0`.
pub open spec fn xorshift128plus_next(s1: u64, s0: u64) -> u64 {
    let a = s1 ^ (s1 << 23u64);
    let b = a ^ (a >> 17u64);
    (b ^ s0) ^ (s0 >> 26u64)
}

/// State of the XorShift32 engine.
pub struct XorShift32 {
    /// The state word.
    pub data: u32,
}

impl Algorithm for XorShift32 {
    type Output = u32;

    open spec fn spec_output(&self) -> u32 {
        xorshift32_next(self.data)
    }

    open spec fn spec_step(&self) -> Self {
        XorShift32 { data: xorshift32_next(self.data) }
    }

    fn gen(&mut self) -> (r: u32) {
        let mut x: u32 = self.data;
        x ^= x << 13;
        x ^= x >> 17;
        x ^= x << 5;
        self.data = x;
        x
    }
}

impl XorShift32 {
    /// The state that the seeding stream `stream` gives:
    /// its first 32-bit draw.
    pub open spec fn spec_seeded(stream: SplitMix64) -> Self {
        XorShift32 {
            data: spec_nth_draw(stream, 4, 0) as u32,
        }
    }
}

impl Default for XorShift32 {
    /// The engine in the state that the default seeding stream gives.
    fn default() -> (r: Self)
        ensures
            r == XorShift32::spec_seeded(spec_default_stream()),
    {
        let data = make_1_u32(PRNG { generator: make_default_stream() });
        XorShift32 { data }
    }
}

impl<T: AlgorithmOutput> From<T> for XorShift32 {
    /// The engine in the state that the seeding stream of `value` gives.
    fn from(value: T) -> (r: Self) {
        let data = make_1_u32(PRNG { generator: make_stream(value) });
        XorShift32 { data }
    }
}

impl<T: AlgorithmOutput> vstd::std_specs::convert::FromSpecImpl<T> for XorShift32 {
    open spec fn obeys_from_spec() -> bool {
        true
    }

    open spec fn from_spec(value: T) -> Self {
        XorShift32::spec_seeded(spec_stream(value.spec_value()))
    }
}

impl XorShift32 {
    /// Whether every word of the state is zero.
    pub open spec fn is_zero(&self) -> bool {
        self.data == 0
    }
}

/// Each round of the XorShift32 transition is one to one and takes zero to zero.
proof fn lemma_xorshift32_rounds(a: u32, b: u32)
    by (bit_vector)
    ensures
        (a ^ (a << 13u32)) == (b ^ (b << 13u32)) ==> a == b,
        a == 0 ==> (a ^ (a << 13u32)) == 0,
        (a ^ (a >> 17u32)) == (b ^ (b >> 17u32)) ==> a == b,
        a == 0 ==> (a ^ (a >> 17u32)) == 0,
        (a ^ (a << 5u32)) == (b ^ (b << 5u32)) ==> a == b,
        a == 0 ==> (a ^ (a << 5u32)) == 0,
{
}

/// The XorShift32 transition on words: equal successors have equal
/// predecessors, and zero steps to zero.
proof fn lemma_xorshift32_words(a: u32, b: u32)
    ensures
        xorshift32_next(a) == xorshift32_next(b) ==> a == b,
        a == 0 ==> xorshift32_next(a) == 0,
{
    let a1 = a ^ (a << 13u32);
    let a2 = a1 ^ (a1 >> 17u32);
    let b1 = b ^ (b << 13u32);
    let b2 = b1 ^ (b1 >> 17u32);
    lemma_xorshift32_rounds(a2, b2);
    lemma_xorshift32_rounds(a1, b1);
    lemma_xorshift32_rounds(a, b);
}

/// The XorShift32 transition is one to one: states with equal successors
/// are equal, so every state lies on a cycle.
pub proof fn lemma_xorshift32_step_injective(a: XorShift32, b: XorShift32)
    requires
        a.spec_step() == b.spec_step(),
    ensures
        a == b,
{
    lemma_xorshift32_words(a.data, b.data);
}

/// The all-zero state of XorShift32 is closed off: it steps to itself, and
/// no other state ever steps into it. An engine that starts outside it stays
/// outside it.
pub proof fn lemma_xorshift32_zero_state(g: XorShift32, n: nat)
    ensures
        spec_steps(g, n).is_zero() <==> g.is_zero(),
    decreases n,
{
    if n > 0 {
        let h = spec_steps(g, (n - 1) as nat);
        lemma_xorshift32_zero_state(g, (n - 1) as nat);
        lemma_xorshift32_words(h.data, 0);
        lemma_xorshift32_words(0, h.data);
    }
}

/// State of the XorShift64 engine.
pub struct XorShift64 {
    /// The state word.
    pub data: u64,
}

impl Algorithm for XorShift64 {
    type Output = u64;

    open spec fn spec_output(&self) -> u64 {
        xorshift64_next(self.data)
    }

    open spec fn spec_step(&self) -> Self {
        XorShift64 { data: xorshift64_next(self.data) }
    }

    fn gen(&mut self) -> (r: u64) {
        let mut x: u64 = self.data;
        x ^= x << 13;
        x ^= x >> 7;
        x ^= x << 17;
        self.data = x;
        x
    }
}

impl XorShift64 {
    /// The state that the seeding stream `stream` gives:
    /// its first 64-bit draw.
    pub open spec fn spec_seeded(stream: SplitMix64) -> Self {
        XorShift64 {
            data: spec_nth_draw(stream, 8, 0) as u64,
        }
    }
}

impl Default for XorShift64 {
    /// The engine in the state that the default seeding stream gives.
    fn default() -> (r: Self)
        ensures
            r == XorShift64::spec_seeded(spec_default_stream()),
    {
        let data = make_1_u64(PRNG { generator: make_default_stream() });
        XorShift64 { data }
    }
}

impl<T: AlgorithmOutput> From<T> for XorShift64 {
    /// The engine in the state that the seeding stream of `value` gives.
    fn from(value: T) -> (r: Self) {
        let data = make_1_u64(PRNG { generator: make_stream(value) });
        XorShift64 { data }
    }
}

impl<T: AlgorithmOutput> vstd::std_specs::convert::FromSpecImpl<T> for XorShift64 {
    open spec fn obeys_from_spec() -> bool {
        true
    }

    open spec fn from_spec(value: T) -> Self {
        XorShift64::spec_seeded(spec_stream(value.spec_value()))
    }
}

impl XorShift64 {
    /// Whether every word of the state is zero.
    pub open spec fn is_zero(&self) -> bool {
        self.data == 0
    }
}

/// Each round of the XorShift64 transition is one to one and takes zero to zero.
proof fn lemma_xorshift64_rounds(a: u64, b: u64)
    by (bit_vector)
    ensures
        (a ^ (a << 13u64)) == (b ^ (b << 13u64)) ==> a == b,
        a == 0 ==> (a ^ (a << 13u64)) == 0,
        (a ^ (a >> 7u64)) == (b ^ (b >> 7u64)) ==> a == b,
        a == 0 ==> (a ^ (a >> 7u64)) == 0,
        (a ^ (a << 17u64)) == (b ^ (b << 17u64)) ==> a == b,
        a == 0 ==> (a ^ (a << 17u64)) == 0,
{
}

/// The XorShift64 transition on words: equal successors have equal
/// predecessors, and zero steps to zero.
proof fn lemma_xorshift64_words(a: u64, b: u64)
    ensures
        xorshift64_next(a) == xorshift64_next(b) ==> a == b,
        a == 0 ==> xorshift64_next(a) == 0,
{
    let a1 = a ^ (a << 13u64);
    let a2 = a1 ^ (a1 >> 7u64);
    let b1 = b ^ (b << 13u64);
    let b2 = b1 ^ (b1 >> 7u64);
    lemma_xorshift64_rounds(a2, b2);
    lemma_xorshift64_rounds(a1, b1);
    lemma_xorshift64_rounds(a, b);
}

/// The XorShift64 transition is one to one: states with equal successors
/// are equal, so every state lies on a cycle.
pub proof fn lemma_xorshift64_step_injective(a: XorShift64, b: XorShift64)
    requires
        a.spec_step() == b.spec_step(),
    ensures
        a == b,
{
    lemma_xorshift64_words(a.data, b.data);
}

/// The all-zero state of XorShift64 is closed off: it steps to itself, and
/// no other state ever steps into it. An engine that starts outside it stays
/// outside it.
pub proof fn lemma_xorshift64_zero_state(g: XorShift64, n: nat)
    ensures
        spec_steps(g, n).is_zero() <==> g.is_zero(),
    decreases n,
{
    if n > 0 {
        let h = spec_steps(g, (n - 1) as nat);
        lemma_xorshift64_zero_state(g, (n - 1) as nat);
        lemma_xorshift64_words(h.data, 0);
        lemma_xorshift64_words(0, h.data);
    }
}

/// State of the XorShift128 engine: four 32-bit words.
pub struct XorShift128 {
    /// The state words.
    pub data: [u32; 4],
}

impl Algorithm for XorShift128 {
    type Output = u32;

    open spec fn spec_output(&self) -> u32 {
        xorshift128_next(self.data[3], self.data[0])
    }

    open spec fn spec_step(&self) -> Self {
        XorShift128 {
            data: [
                xorshift128_next(self.data[3], self.data[0]),
                self.data[0],
                self.data[1],
                self.data[2],
            ],
        }
    }

    fn gen(&mut self) -> (r: u32) {
        let mut t: u32 = self.data[3];
        let s: u32 = self.data[0];
        t ^= t << 11;
        t ^= t >> 8;
        let first: u32 = t ^ s ^ (s >> 19);
        self.data = [first, s, self.data[1], self.data[2]];
        first
    }
}

impl XorShift128 {
    /// The state that the seeding stream `stream` gives:
    /// its first four 32-bit draws.
    pub open spec fn spec_seeded(stream: SplitMix64) -> Self {
        XorShift128 {
            data: [
                spec_nth_draw(stream, 4, 0) as u32,
                spec_nth_draw(stream, 4, 1) as u32,
                spec_nth_draw(stream, 4, 2) as u32,
                spec_nth_draw(stream, 4, 3) as u32,
            ],
        }
    }
}

impl Default for XorShift128 {
    /// The engine in the state that the default seeding stream gives.
    fn default() -> (r: Self)
        ensures
            r == XorShift128::spec_seeded(spec_default_stream()),
    {
        let data = make_4_u32(PRNG { generator: make_default_stream() });
        assert(data =~= XorShift128::spec_seeded(spec_default_stream()).data);
        XorShift128 { data }
    }
}

impl<T: AlgorithmOutput> From<T> for XorShift128 {
    /// The engine in the state that the seeding stream of `value` gives.
    fn from(value: T) -> (r: Self) {
        let data = make_4_u32(PRNG { generator: make_stream(value) });
        assert(data =~= XorShift128::spec_seeded(spec_stream(value.spec_value())).data);
        XorShift128 { data }
    }
}

impl<T: AlgorithmOutput> vstd::std_specs::convert::FromSpecImpl<T> for XorShift128 {
    open spec fn obeys_from_spec() -> bool {
        true
    }

    open spec fn from_spec(value: T) -> Self {
        XorShift128::spec_seeded(spec_stream(value.spec_value()))
    }
}

impl XorShift128 {
    /// Whether every word of the state is zero.
    pub open spec fn is_zero(&self) -> bool {
        self.data[0] == 0 && self.data[1] == 0 && self.data[2] == 0 && self.data[3] == 0
    }
}

/// The XorShift128 transition on words: equal successors have equal
/// predecessors, and the zero state steps to the zero state.
proof fn lemma_xorshift128_words(
    a0: u32,
    a1: u32,
    a2: u32,
    a3: u32,
    b0: u32,
    b1: u32,
    b2: u32,
    b3: u32,
)
    by (bit_vector)
    ensures
        ({
            &&& xorshift128_next(a3, a0) == xorshift128_next(b3, b0)
            &&& a0 == b0
            &&& a1 == b1
            &&& a2 == b2
        }) ==> a0 == b0 && a1 == b1 && a2 == b2 && a3 == b3,
        a0 == 0 && a1 == 0 && a2 == 0 && a3 == 0 ==> ({
            &&& xorshift128_next(a3, a0) == 0
            &&& a0 == 0
            &&& a1 == 0
            &&& a2 == 0
        }),
{
}

/// The XorShift128 transition is one to one: states with equal successors
/// are equal, so every state lies on a cycle.
pub proof fn lemma_xorshift128_step_injective(a: XorShift128, b: XorShift128)
    requires
        a.spec_step() == b.spec_step(),
    ensures
        a == b,
{
    let x = a.spec_step().data;
    let y = b.spec_step().data;
    assert(x[0] == y[0] && x[1] == y[1] && x[2] == y[2] && x[3] == y[3]);
    lemma_xorshift128_words(
        a.data[0],
        a.data[1],
        a.data[2],
        a.data[3],
        b.data[0],
        b.data[1],
        b.data[2],
        b.data[3],
    );
    assert(a.data =~= b.data);
}

/// The all-zero state of XorShift128 is closed off: it steps to itself, and
/// no other state ever steps into it. An engine that starts outside it stays
/// outside it.
pub proof fn lemma_xorshift128_zero_state(g: XorShift128, n: nat)
    ensures
        spec_steps(g, n).is_zero() <==> g.is_zero(),
    decreases n,
{
    if n > 0 {
        let h = spec_steps(g, (n - 1) as nat);
        lemma_xorshift128_zero_state(g, (n - 1) as nat);
        lemma_xorshift128_words(h.data[0], h.data[1], h.data[2], h.data[3], 0, 0, 0, 0);
        lemma_xorshift128_words(0, 0, 0, 0, h.data[0], h.data[1], h.data[2], h.data[3]);
    }
}

/// State of the XorShift128+ engine: two 64-bit words.
pub struct XorShift128Plus {
    /// The state words.
    pub data: [u64; 2],
}

impl Algorithm for XorShift128Plus {
    type Output = u64;

    open spec fn spec_output(&self) -> u64 {
        xorshift128plus_next(self.data[0], self.data[1]).wrapping_add(self.data[1])
    }

    open spec fn spec_step(&self) -> Self {
        XorShift128Plus { data: [self.data[1], xorshift128plus_next(self.data[0], self.data[1])] }
    }

    fn gen(&mut self) -> (r: u64) {
        let mut s1: u64 = self.data[0];
        let s0: u64 = self.data[1];
        s1 ^= s1 << 23;
        s1 ^= s1 >> 17;
        s1 ^= s0;
        s1 ^= s0 >> 26;
        self.data = [s0, s1];
        s1.wrapping_add(s0)
    }
}

impl XorShift128Plus {
    /// The state that the seeding stream `stream` gives:
    /// its first two 64-bit draws.
    pub open spec fn spec_seeded(stream: SplitMix64) -> Self {
        XorShift128Plus {
            data: [
                spec_nth_draw(stream, 8, 0) as u64,
                spec_nth_draw(stream, 8, 1) as u64,
            ],
        }
    }
}

impl Default for XorShift128Plus {
    /// The engine in the state that the default seeding stream gives.
    fn default() -> (r: Self)
        ensures
            r == XorShift128Plus::spec_seeded(spec_default_stream()),
    {
        let data = make_2_u64(PRNG { generator: make_default_stream() });
        assert(data =~= XorShift128Plus::spec_seeded(spec_default_stream()).data);
        XorShift128Plus { data }
    }
}

impl<T: AlgorithmOutput> From<T> for XorShift128Plus {
    /// The engine in the state that the seeding stream of `value` gives.
    fn from(value: T) -> (r: Self) {
        let data = make_2_u64(PRNG { generator: make_stream(value) });
        assert(data =~= XorShift128Plus::spec_seeded(spec_stream(value.spec_value())).data);
        XorShift128Plus { data }
    }
}

impl<T: AlgorithmOutput> vstd::std_specs::convert::FromSpecImpl<T> for XorShift128Plus {
    open spec fn obeys_from_spec() -> bool {
        true
    }

    open spec fn from_spec(value: T) -> Self {
        XorShift128Plus::spec_seeded(spec_stream(value.spec_value()))
    }
}

impl XorShift128Plus {
    /// Whether every word of the state is zero.
    pub open spec fn is_zero(&self) -> bool {
        self.data[0] == 0 && self.data[1] == 0
    }
}

/// The XorShift128+ transition on words: equal successors have equal
/// predecessors, and the zero state steps to the zero state.
proof fn lemma_xorshift128plus_words(a0: u64, a1: u64, b0: u64, b1: u64)
    by (bit_vector)
    ensures
        ({
            &&& a1 == b1
            &&& xorshift128plus_next(a0, a1) == xorshift128plus_next(b0, b1)
        }) ==> a0 == b0 && a1 == b1,
        a0 == 0 && a1 == 0 ==> ({
            &&& a1 == 0
            &&& xorshift128plus_next(a0, a1) == 0
        }),
{
}

/// The XorShift128+ transition is one to one: states with equal successors
/// are equal, so every state lies on a cycle.
pub proof fn lemma_xorshift128plus_step_injective(a: XorShift128Plus, b: XorShift128Plus)
    requires
        a.spec_step() == b.spec_step(),
    ensures
        a == b,
{
    let x = a.spec_step().data;
    let y = b.spec_step().data;
    assert(x[0] == y[0] && x[1] == y[1]);
    lemma_xorshift128plus_words(a.data[0], a.data[1], b.data[0], b.data[1]);
    assert(a.data =~= b.data);
}

/// The all-zero state of XorShift128+ is closed off: it steps to itself, and
/// no other state ever steps into it. An engine that starts outside it stays
/// outside it.
pub proof fn lemma_xorshift128plus_zero_state(g: XorShift128Plus, n: nat)
    ensures
        spec_steps(g, n).is_zero() <==> g.is_zero(),
    decreases n,
{
    if n > 0 {
        let h = spec_steps(g, (n - 1) as nat);
        lemma_xorshift128plus_zero_state(g, (n - 1) as nat);
        lemma_xorshift128plus_words(h.data[0], h.data[1], 0, 0);
        lemma_xorshift128plus_words(0, 0, h.data[0], h.data[1]);
    }
}

} // verus!
