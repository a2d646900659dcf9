//! The XoroShiro family of engines.
use vstd::prelude::*;
use crate::algorithms::rotate::{rotl32, rotl64, spec_rotl32, spec_rotl64};
use crate::algorithms::{
    make_2_u64, make_4_u32, make_default_stream, make_stream, spec_default_stream, spec_stream,
};
use crate::algorithms::splitmix::SplitMix64;
use crate::smol_core::{spec_nth_draw, spec_steps, Algorithm, AlgorithmOutput, PRNG};

verus! {

/// The state transition shared by the two-word XoroShiro engines, on the first
/// word `s0` and the already combined second word `s1`.
pub open spec fn xoroshiro128_next(s0: u64, s1: u64) -> [u64; 2] {
    [spec_rotl64(s0, 24) ^ s1 ^ (s1 << 16u64), spec_rotl64(s1, 37)]
}

/// State of the XoroShiro128++ engine: four 32-bit words.
pub struct XoroShiro128PlusPlus {
    /// The state words.
    pub data: [u32; 4],
}

impl Algorithm for XoroShiro128PlusPlus {
    type Output = u32;

    open spec fn spec_output(&self) -> u32 {
        spec_rotl32(self.data[0].wrapping_add(self.data[3]), 7).wrapping_add(self.data[0])
    }

    open spec fn spec_step(&self) -> Self {
        let c = self.data[2] ^ self.data[0];
        let d = self.data[3] ^ self.data[1];
        XoroShiro128PlusPlus {
            data: [
                self.data[0] ^ d,
                self.data[1] ^ c,
                c ^ (self.data[1] << 9u32),
                spec_rotl32(d, 11),
            ],
        }
    }

    fn gen(&mut self) -> (r: u32) {
        let result: u32 = rotl32(self.data[0].wrapping_add(self.data[3]), 7).wrapping_add(
            self.data[0],
        );
        let t: u32 = self.data[1] << 9;
        let c: u32 = self.data[2] ^ self.data[0];
        let d: u32 = self.data[3] ^ self.data[1];
        let b: u32 = self.data[1] ^ c;
        let a: u32 = self.data[0] ^ d;
        self.data = [a, b, c ^ t, rotl32(d, 11)];
        result
    }
}

impl XoroShiro128PlusPlus {
    /// The state that the seeding stream `stream` gives:
    /// its first four 32-bit draws.
    pub open spec fn spec_seeded(stream: SplitMix64) -> Self {
        XoroShiro128PlusPlus {
            data: [
                spec_nth_draw(stream, 4, 0) as u32,
                spec_nth_draw(stream, 4, 1) as u32,
                spec_nth_draw(stream, 4, 2) as u32,
                spec_nth_draw(stream, 4, 3) as u32,
            ],
        }
    }
}

impl Default for XoroShiro128PlusPlus {
    /// The engine in the state that the default seeding stream gives.
    fn default() -> (r: Self)
        ensures
            r == XoroShiro128PlusPlus::spec_seeded(spec_default_stream()),
    {
        let data = make_4_u32(PRNG { generator: make_default_stream() });
        assert(data =~= XoroShiro128PlusPlus::spec_seeded(spec_default_stream()).data);
        XoroShiro128PlusPlus { data }
    }
}

impl<T: AlgorithmOutput> From<T> for XoroShiro128PlusPlus {
    /// The engine in the state that the seeding stream of `value` gives.
    fn from(value: T) -> (r: Self) {
        let data = make_4_u32(PRNG { generator: make_stream(value) });
        assert(data =~= XoroShiro128PlusPlus::spec_seeded(spec_stream(value.spec_value())).data);
        XoroShiro128PlusPlus { data }
    }
}

impl<T: AlgorithmOutput> vstd::std_specs::convert::FromSpecImpl<T> for XoroShiro128PlusPlus {
    open spec fn obeys_from_spec() -> bool {
        true
    }

    open spec fn from_spec(value: T) -> Self {
        XoroShiro128PlusPlus::spec_seeded(spec_stream(value.spec_value()))
    }
}

impl XoroShiro128PlusPlus {
    /// Whether every word of the state is zero.
    pub open spec fn is_zero(&self) -> bool {
        self.data[0] == 0 && self.data[1] == 0 && self.data[2] == 0 && self.data[3] == 0
    }
}

/// The XoroShiro128++ transition on words: equal successors have equal
/// predecessors, and the zero state steps to the zero state.
proof fn lemma_xoroshiro128plusplus_words(
    a0: u32,
    a1: u32,
    a2: u32,
    a3: u32,
    b0: u32,
    b1: u32,
    b2: u32,
    b3: u32,
)
    by (bit_vector)
    ensures
        ({
            &&& a0 ^ (a3 ^ a1) == b0 ^ (b3 ^ b1)
            &&& a1 ^ (a2 ^ a0) == b1 ^ (b2 ^ b0)
            &&& (a2 ^ a0) ^ (a1 << 9u32) == (b2 ^ b0) ^ (b1 << 9u32)
            &&& spec_rotl32(a3 ^ a1, 11) == spec_rotl32(b3 ^ b1, 11)
        }) ==> a0 == b0 && a1 == b1 && a2 == b2 && a3 == b3,
        a0 == 0 && a1 == 0 && a2 == 0 && a3 == 0 ==> ({
            &&& a0 ^ (a3 ^ a1) == 0
            &&& a1 ^ (a2 ^ a0) == 0
            &&& (a2 ^ a0) ^ (a1 << 9u32) == 0
            &&& spec_rotl32(a3 ^ a1, 11) == 0
        }),
{
}

/// The XoroShiro128++ transition is one to one: states with equal successors
/// are equal, so every state lies on a cycle.
pub proof fn lemma_xoroshiro128plusplus_step_injective(
    a: XoroShiro128PlusPlus,
    b: XoroShiro128PlusPlus,
)
    requires
        a.spec_step() == b.spec_step(),
    ensures
        a == b,
{
    let x = a.spec_step().data;
    let y = b.spec_step().data;
    assert(x[0] == y[0] && x[1] == y[1] && x[2] == y[2] && x[3] == y[3]);
    lemma_xoroshiro128plusplus_words(
        a.data[0],
        a.data[1],
        a.data[2],
        a.data[3],
        b.data[0],
        b.data[1],
        b.data[2],
        b.data[3],
    );
    assert(a.data =~= b.data);
}

/// The all-zero state of XoroShiro128++ is closed off: it steps to itself, and
/// no other state ever steps into it. An engine that starts outside it stays
/// outside it.
pub proof fn lemma_xoroshiro128plusplus_zero_state(g: XoroShiro128PlusPlus, n: nat)
    ensures
        spec_steps(g, n).is_zero() <==> g.is_zero(),
    decreases n,
{
    if n > 0 {
        let h = spec_steps(g, (n - 1) as nat);
        lemma_xoroshiro128plusplus_zero_state(g, (n - 1) as nat);
        lemma_xoroshiro128plusplus_words(h.data[0], h.data[1], h.data[2], h.data[3], 0, 0, 0, 0);
        lemma_xoroshiro128plusplus_words(0, 0, 0, 0, h.data[0], h.data[1], h.data[2], h.data[3]);
    }
}

/// State of the XoroShiro128** engine: two 64-bit words.
pub struct XoroShiro128SuperStar {
    /// The state words.
    pub data: [u64; 2],
}

impl Algorithm for XoroShiro128SuperStar {
    type Output = u64;

    open spec fn spec_output(&self) -> u64 {
        spec_rotl64(self.data[0].wrapping_mul(5), 7).wrapping_mul(9)
    }

    open spec fn spec_step(&self) -> Self {
        XoroShiro128SuperStar { data: xoroshiro128_next(self.data[0], self.data[1]) }
    }

    fn gen(&mut self) -> (r: u64) {
        let s0: u64 = self.data[0];
        let s1: u64 = self.data[1];
        let result: u64 = rotl64(s0.wrapping_mul(5), 7).wrapping_mul(9);
        self.data = [rotl64(s0, 24) ^ s1 ^ (s1 << 16), rotl64(s1, 37)];
        result
    }
}

impl XoroShiro128SuperStar {
    /// The state that the seeding stream `stream` gives:
    /// its first two 64-bit draws.
    pub open spec fn spec_seeded(stream: SplitMix64) -> Self {
        XoroShiro128SuperStar {
            data: [
                spec_nth_draw(stream, 8, 0) as u64,
                spec_nth_draw(stream, 8, 1) as u64,
            ],
        }
    }
}

impl Default for XoroShiro128SuperStar {
    /// The engine in the state that the default seeding stream gives.
    fn default() -> (r: Self)
        ensures
            r == XoroShiro128SuperStar::spec_seeded(spec_default_stream()),
    {
        let data = make_2_u64(PRNG { generator: make_default_stream() });
        assert(data =~= XoroShiro128SuperStar::spec_seeded(spec_default_stream()).data);
        XoroShiro128SuperStar { data }
    }
}

impl<T: AlgorithmOutput> From<T> for XoroShiro128SuperStar {
    /// The engine in the state that the seeding stream of `value` gives.
    fn from(value: T) -> (r: Self) {
        let data = make_2_u64(PRNG { generator: make_stream(value) });
        assert(data =~= XoroShiro128SuperStar::spec_seeded(spec_stream(value.spec_value())).data);
        XoroShiro128SuperStar { data }
    }
}

impl<T: AlgorithmOutput> vstd::std_specs::convert::FromSpecImpl<T> for XoroShiro128SuperStar {
    open spec fn obeys_from_spec() -> bool {
        true
    }

    open spec fn from_spec(value: T) -> Self {
        XoroShiro128SuperStar::spec_seeded(spec_stream(value.spec_value()))
    }
}

impl XoroShiro128SuperStar {
    /// Whether every word of the state is zero.
    pub open spec fn is_zero(&self) -> bool {
        self.data[0] == 0 && self.data[1] == 0
    }
}

/// The XoroShiro128** transition on words: equal successors have equal
/// predecessors, and the zero state steps to the zero state.
proof fn lemma_xoroshiro128superstar_words(a0: u64, a1: u64, b0: u64, b1: u64)
    by (bit_vector)
    ensures
        ({
            &&& spec_rotl64(a0, 24) ^ a1 ^ (a1 << 16u64) == spec_rotl64(b0, 24) ^ b1 ^ (b1 << 16u64)
            &&& spec_rotl64(a1, 37) == spec_rotl64(b1, 37)
        }) ==> a0 == b0 && a1 == b1,
        a0 == 0 && a1 == 0 ==> ({
            &&& spec_rotl64(a0, 24) ^ a1 ^ (a1 << 16u64) == 0
            &&& spec_rotl64(a1, 37) == 0
        }),
{
}

/// The XoroShiro128** transition is one to one: states with equal successors
/// are equal, so every state lies on a cycle.
pub proof fn lemma_xoroshiro128superstar_step_injective(
    a: XoroShiro128SuperStar,
    b: XoroShiro128SuperStar,
)
    requires
        a.spec_step() == b.spec_step(),
    ensures
        a == b,
{
    let x = a.spec_step().data;
    let y = b.spec_step().data;
    assert(x[0] == y[0] && x[1] == y[1]);
    lemma_xoroshiro128superstar_words(a.data[0], a.data[1], b.data[0], b.data[1]);
    assert(a.data =~= b.data);
}

/// The all-zero state of XoroShiro128** is closed off: it steps to itself, and
/// no other state ever steps into it. An engine that starts outside it stays
/// outside it.
pub proof fn lemma_xoroshiro128superstar_zero_state(g: XoroShiro128SuperStar, n: nat)
    ensures
        spec_steps(g, n).is_zero() <==> g.is_zero(),
    decreases n,
{
    if n > 0 {
        let h = spec_steps(g, (n - 1) as nat);
        lemma_xoroshiro128superstar_zero_state(g, (n - 1) as nat);
        lemma_xoroshiro128superstar_words(h.data[0], h.data[1], 0, 0);
        lemma_xoroshiro128superstar_words(0, 0, h.data[0], h.data[1]);
    }
}

/// State of the XoroShiro128+ engine: two 64-bit words.
/// Its low bits are weak; it is meant for floating-point generation.
pub struct XoroShiro128Plus {
    /// The state words.
    pub data: [u64; 2],
}

impl Algorithm for XoroShiro128Plus {
    type Output = u64;

    open spec fn spec_output(&self) -> u64 {
        self.data[0].wrapping_add(self.data[1])
    }

    open spec fn spec_step(&self) -> Self {
        XoroShiro128Plus { data: xoroshiro128_next(self.data[0], self.data[1] ^ self.data[0]) }
    }

    fn gen(&mut self) -> (r: u64) {
        let s0: u64 = self.data[0];
        let mut s1: u64 = self.data[1];
        let result: u64 = s0.wrapping_add(s1);
        s1 ^= s0;
        self.data = [rotl64(s0, 24) ^ s1 ^ (s1 << 16), rotl64(s1, 37)];
        result
    }
}

impl XoroShiro128Plus {
    /// The state that the seeding stream `stream` gives:
    /// its first two 64-bit draws.
    pub open spec fn spec_seeded(stream: SplitMix64) -> Self {
        XoroShiro128Plus {
            data: [
                spec_nth_draw(stream, 8, 0) as u64,
                spec_nth_draw(stream, 8, 1) as u64,
            ],
        }
    }
}

impl Default for XoroShiro128Plus {
    /// The engine in the state that the default seeding stream gives.
    fn default() -> (r: Self)
        ensures
            r == XoroShiro128Plus::spec_seeded(spec_default_stream()),
    {
        let data = make_2_u64(PRNG { generator: make_default_stream() });
        assert(data =~= XoroShiro128Plus::spec_seeded(spec_default_stream()).data);
        XoroShiro128Plus { data }
    }
}

impl<T: AlgorithmOutput> From<T> for XoroShiro128Plus {
    /// The engine in the state that the seeding stream of `value` gives.
    fn from(value: T) -> (r: Self) {
        let data = make_2_u64(PRNG { generator: make_stream(value) });
        assert(data =~= XoroShiro128Plus::spec_seeded(spec_stream(value.spec_value())).data);
        XoroShiro128Plus { data }
    }
}

impl<T: AlgorithmOutput> vstd::std_specs::convert::FromSpecImpl<T> for XoroShiro128Plus {
    open spec fn obeys_from_spec() -> bool {
        true
    }

    open spec fn from_spec(value: T) -> Self {
        XoroShiro128Plus::spec_seeded(spec_stream(value.spec_value()))
    }
}

impl XoroShiro128Plus {
    /// Whether every word of the state is zero.
    pub open spec fn is_zero(&self) -> bool {
        self.data[0] == 0 && self.data[1] == 0
    }
}

/// The XoroShiro128+ transition on words: equal successors have equal
/// predecessors, and the zero state steps to the zero state.
proof fn lemma_xoroshiro128plus_words(a0: u64, a1: u64, b0: u64, b1: u64)
    by (bit_vector)
    ensures
        ({
            &&& spec_rotl64(a0, 24) ^ (a1 ^ a0) ^ ((a1 ^ a0) << 16u64)
                == spec_rotl64(b0, 24) ^ (b1 ^ b0) ^ ((b1 ^ b0) << 16u64)
            &&& spec_rotl64(a1 ^ a0, 37) == spec_rotl64(b1 ^ b0, 37)
        }) ==> a0 == b0 && a1 == b1,
        a0 == 0 && a1 == 0 ==> ({
            &&& spec_rotl64(a0, 24) ^ (a1 ^ a0) ^ ((a1 ^ a0) << 16u64) == 0
            &&& spec_rotl64(a1 ^ a0, 37) == 0
        }),
{
}

/// The XoroShiro128+ transition is one to one: states with equal successors
/// are equal, so every state lies on a cycle.
pub proof fn lemma_xoroshiro128plus_step_injective(a: XoroShiro128Plus, b: XoroShiro128Plus)
    requires
        a.spec_step() == b.spec_step(),
    ensures
        a == b,
{
    let x = a.spec_step().data;
    let y = b.spec_step().data;
    assert(x[0] == y[0] && x[1] == y[1]);
    lemma_xoroshiro128plus_words(a.data[0], a.data[1], b.data[0], b.data[1]);
    assert(a.data =~= b.data);
}

/// The all-zero state of XoroShiro128+ is closed off: it steps to itself, and
/// no other state ever steps into it. An engine that starts outside it stays
/// outside it.
pub proof fn lemma_xoroshiro128plus_zero_state(g: XoroShiro128Plus, n: nat)
    ensures
        spec_steps(g, n).is_zero() <==> g.is_zero(),
    decreases n,
{
    if n > 0 {
        let h = spec_steps(g, (n - 1) as nat);
        lemma_xoroshiro128plus_zero_state(g, (n - 1) as nat);
        lemma_xoroshiro128plus_words(h.data[0], h.data[1], 0, 0);
        lemma_xoroshiro128plus_words(0, 0, h.data[0], h.data[1]);
    }
}

} // verus!
