//! The XoShiro family of engines, after Blackman and Vigna.
use vstd::prelude::*;
use crate::algorithms::rotate::{rotl64, rotr64, spec_rotl64, spec_rotr64};
use crate::algorithms::{
    make_4_u64, make_default_stream, make_stream, spec_default_stream, spec_stream,
};
use crate::algorithms::splitmix::SplitMix64;
use crate::smol_core::{spec_nth_draw, spec_steps, Algorithm, AlgorithmOutput, PRNG};

verus! {

/// State of the XoShiro256** engine: four 64-bit words.
pub struct XoShiro256SuperStar {
    /// The state words.
    pub data: [u64; 4],
}

impl Algorithm for XoShiro256SuperStar {
    type Output = u64;

    open spec fn spec_output(&self) -> u64 {
        spec_rotr64(self.data[1].wrapping_mul(5), 7).wrapping_mul(9)
    }

    open spec fn spec_step(&self) -> Self {
        let c = self.data[2] ^ self.data[0];
        let d = self.data[3] ^ self.data[1];
        XoShiro256SuperStar {
            data: [
                self.data[0] ^ d,
                self.data[1] ^ c,
                c ^ (self.data[1] << 17u64),
                spec_rotr64(d, 45),
            ],
        }
    }

    fn gen(&mut self) -> (r: u64) {
        let result: u64 = rotr64(self.data[1].wrapping_mul(5), 7).wrapping_mul(9);
        let t: u64 = self.data[1] << 17;
        let c: u64 = self.data[2] ^ self.data[0];
        let d: u64 = self.data[3] ^ self.data[1];
        let b: u64 = self.data[1] ^ c;
        let a: u64 = self.data[0] ^ d;
        self.data = [a, b, c ^ t, rotr64(d, 45)];
        result
    }
}

impl XoShiro256SuperStar {
    /// The state that the seeding stream `stream` gives:
    /// its first four 64-bit draws.
    pub open spec fn spec_seeded(stream: SplitMix64) -> Self {
        XoShiro256SuperStar {
            data: [
                spec_nth_draw(stream, 8, 0) as u64,
                spec_nth_draw(stream, 8, 1) as u64,
                spec_nth_draw(stream, 8, 2) as u64,
                spec_nth_draw(stream, 8, 3) as u64,
            ],
        }
    }
}

impl Default for XoShiro256SuperStar {
    /// The engine in the state that the default seeding stream gives.
    fn default() -> (r: Self)
        ensures
            r == XoShiro256SuperStar::spec_seeded(spec_default_stream()),
    {
        let data = make_4_u64(PRNG { generator: make_default_stream() });
        assert(data =~= XoShiro256SuperStar::spec_seeded(spec_default_stream()).data);
        XoShiro256SuperStar { data }
    }
}

impl<T: AlgorithmOutput> From<T> for XoShiro256SuperStar {
    /// The engine in the state that the seeding stream of `value` gives.
    fn from(value: T) -> (r: Self) {
        let data = make_4_u64(PRNG { generator: make_stream(value) });
        assert(data =~= XoShiro256SuperStar::spec_seeded(spec_stream(value.spec_value())).data);
        XoShiro256SuperStar { data }
    }
}

impl<T: AlgorithmOutput> vstd::std_specs::convert::FromSpecImpl<T> for XoShiro256SuperStar {
    open spec fn obeys_from_spec() -> bool {
        true
    }

    open spec fn from_spec(value: T) -> Self {
        XoShiro256SuperStar::spec_seeded(spec_stream(value.spec_value()))
    }
}

impl XoShiro256SuperStar {
    /// Whether every word of the state is zero.
    pub open spec fn is_zero(&self) -> bool {
        self.data[0] == 0 && self.data[1] == 0 && self.data[2] == 0 && self.data[3] == 0
    }
}

/// The XoShiro256** transition on words: equal successors have equal
/// predecessors, and the zero state steps to the zero state.
proof fn lemma_xoshiro256superstar_words(
    a0: u64,
    a1: u64,
    a2: u64,
    a3: u64,
    b0: u64,
    b1: u64,
    b2: u64,
    b3: u64,
)
    by (bit_vector)
    ensures
        ({
            &&& a0 ^ (a3 ^ a1) == b0 ^ (b3 ^ b1)
            &&& a1 ^ (a2 ^ a0) == b1 ^ (b2 ^ b0)
            &&& (a2 ^ a0) ^ (a1 << 17u64) == (b2 ^ b0) ^ (b1 << 17u64)
            &&& spec_rotr64(a3 ^ a1, 45) == spec_rotr64(b3 ^ b1, 45)
        }) ==> a0 == b0 && a1 == b1 && a2 == b2 && a3 == b3,
        a0 == 0 && a1 == 0 && a2 == 0 && a3 == 0 ==> ({
            &&& a0 ^ (a3 ^ a1) == 0
            &&& a1 ^ (a2 ^ a0) == 0
            &&& (a2 ^ a0) ^ (a1 << 17u64) == 0
            &&& spec_rotr64(a3 ^ a1, 45) == 0
        }),
{
}

/// The XoShiro256** transition is one to one: states with equal successors
/// are equal, so every state lies on a cycle.
pub proof fn lemma_xoshiro256superstar_step_injective(
    a: XoShiro256SuperStar,
    b: XoShiro256SuperStar,
)
    requires
        a.spec_step() == b.spec_step(),
    ensures
        a == b,
{
    let x = a.spec_step().data;
    let y = b.spec_step().data;
    assert(x[0] == y[0] && x[1] == y[1] && x[2] == y[2] && x[3] == y[3]);
    lemma_xoshiro256superstar_words(
        a.data[0],
        a.data[1],
        a.data[2],
        a.data[3],
        b.data[0],
        b.data[1],
        b.data[2],
        b.data[3],
    );
    assert(a.data =~= b.data);
}

/// The all-zero state of XoShiro256** is closed off: it steps to itself, and
/// no other state ever steps into it. An engine that starts outside it stays
/// outside it.
pub proof fn lemma_xoshiro256superstar_zero_state(g: XoShiro256SuperStar, n: nat)
    ensures
        spec_steps(g, n).is_zero() <==> g.is_zero(),
    decreases n,
{
    if n > 0 {
        let h = spec_steps(g, (n - 1) as nat);
        lemma_xoshiro256superstar_zero_state(g, (n - 1) as nat);
        lemma_xoshiro256superstar_words(h.data[0], h.data[1], h.data[2], h.data[3], 0, 0, 0, 0);
        lemma_xoshiro256superstar_words(0, 0, 0, 0, h.data[0], h.data[1], h.data[2], h.data[3]);
    }
}

/// State of the XoShiro256++ engine: four 64-bit words.
pub struct XoShiro256PlusPlus {
    /// The state words.
    pub data: [u64; 4],
}

impl Algorithm for XoShiro256PlusPlus {
    type Output = u64;

    open spec fn spec_output(&self) -> u64 {
        spec_rotl64(self.data[0].wrapping_add(self.data[0]), 23).wrapping_add(self.data[0])
    }

    open spec fn spec_step(&self) -> Self {
        let c = self.data[2] ^ self.data[0];
        let d = self.data[3] ^ self.data[1];
        XoShiro256PlusPlus {
            data: [
                self.data[0] ^ d,
                self.data[1] ^ c,
                c ^ (self.data[1] << 17u64),
                spec_rotl64(d, 45),
            ],
        }
    }

    fn gen(&mut self) -> (r: u64) {
        let result: u64 = rotl64(self.data[0].wrapping_add(self.data[0]), 23).wrapping_add(
            self.data[0],
        );
        let t: u64 = self.data[1] << 17;
        let c: u64 = self.data[2] ^ self.data[0];
        let d: u64 = self.data[3] ^ self.data[1];
        let b: u64 = self.data[1] ^ c;
        let a: u64 = self.data[0] ^ d;
        self.data = [a, b, c ^ t, rotl64(d, 45)];
        result
    }
}

impl XoShiro256PlusPlus {
    /// The state that the seeding stream `stream` gives:
    /// its first four 64-bit draws.
    pub open spec fn spec_seeded(stream: SplitMix64) -> Self {
        XoShiro256PlusPlus {
            data: [
                spec_nth_draw(stream, 8, 0) as u64,
                spec_nth_draw(stream, 8, 1) as u64,
                spec_nth_draw(stream, 8, 2) as u64,
                spec_nth_draw(stream, 8, 3) as u64,
            ],
        }
    }
}

impl Default for XoShiro256PlusPlus {
    /// The engine in the state that the default seeding stream gives.
    fn default() -> (r: Self)
        ensures
            r == XoShiro256PlusPlus::spec_seeded(spec_default_stream()),
    {
        let data = make_4_u64(PRNG { generator: make_default_stream() });
        assert(data =~= XoShiro256PlusPlus::spec_seeded(spec_default_stream()).data);
        XoShiro256PlusPlus { data }
    }
}

impl<T: AlgorithmOutput> From<T> for XoShiro256PlusPlus {
    /// The engine in the state that the seeding stream of `value` gives.
    fn from(value: T) -> (r: Self) {
        let data = make_4_u64(PRNG { generator: make_stream(value) });
        assert(data =~= XoShiro256PlusPlus::spec_seeded(spec_stream(value.spec_value())).data);
        XoShiro256PlusPlus { data }
    }
}

impl<T: AlgorithmOutput> vstd::std_specs::convert::FromSpecImpl<T> for XoShiro256PlusPlus {
    open spec fn obeys_from_spec() -> bool {
        true
    }

    open spec fn from_spec(value: T) -> Self {
        XoShiro256PlusPlus::spec_seeded(spec_stream(value.spec_value()))
    }
}

impl XoShiro256PlusPlus {
    /// Whether every word of the state is zero.
    pub open spec fn is_zero(&self) -> bool {
        self.data[0] == 0 && self.data[1] == 0 && self.data[2] == 0 && self.data[3] == 0
    }
}

/// The XoShiro256++ transition on words: equal successors have equal
/// predecessors, and the zero state steps to the zero state.
proof fn lemma_xoshiro256plusplus_words(
    a0: u64,
    a1: u64,
    a2: u64,
    a3: u64,
    b0: u64,
    b1: u64,
    b2: u64,
    b3: u64,
)
    by (bit_vector)
    ensures
        ({
            &&& a0 ^ (a3 ^ a1) == b0 ^ (b3 ^ b1)
            &&& a1 ^ (a2 ^ a0) == b1 ^ (b2 ^ b0)
            &&& (a2 ^ a0) ^ (a1 << 17u64) == (b2 ^ b0) ^ (b1 << 17u64)
            &&& spec_rotl64(a3 ^ a1, 45) == spec_rotl64(b3 ^ b1, 45)
        }) ==> a0 == b0 && a1 == b1 && a2 == b2 && a3 == b3,
        a0 == 0 && a1 == 0 && a2 == 0 && a3 == 0 ==> ({
            &&& a0 ^ (a3 ^ a1) == 0
            &&& a1 ^ (a2 ^ a0) == 0
            &&& (a2 ^ a0) ^ (a1 << 17u64) == 0
            &&& spec_rotl64(a3 ^ a1, 45) == 0
        }),
{
}

/// The XoShiro256++ transition is one to one: states with equal successors
/// are equal, so every state lies on a cycle.
pub proof fn lemma_xoshiro256plusplus_step_injective(a: XoShiro256PlusPlus, b: XoShiro256PlusPlus)
    requires
        a.spec_step() == b.spec_step(),
    ensures
        a == b,
{
    let x = a.spec_step().data;
    let y = b.spec_step().data;
    assert(x[0] == y[0] && x[1] == y[1] && x[2] == y[2] && x[3] == y[3]);
    lemma_xoshiro256plusplus_words(
        a.data[0],
        a.data[1],
        a.data[2],
        a.data[3],
        b.data[0],
        b.data[1],
        b.data[2],
        b.data[3],
    );
    assert(a.data =~= b.data);
}

/// The all-zero state of XoShiro256++ is closed off: it steps to itself, and
/// no other state ever steps into it. An engine that starts outside it stays
/// outside it.
pub proof fn lemma_xoshiro256plusplus_zero_state(g: XoShiro256PlusPlus, n: nat)
    ensures
        spec_steps(g, n).is_zero() <==> g.is_zero(),
    decreases n,
{
    if n > 0 {
        let h = spec_steps(g, (n - 1) as nat);
        lemma_xoshiro256plusplus_zero_state(g, (n - 1) as nat);
        lemma_xoshiro256plusplus_words(h.data[0], h.data[1], h.data[2], h.data[3], 0, 0, 0, 0);
        lemma_xoshiro256plusplus_words(0, 0, 0, 0, h.data[0], h.data[1], h.data[2], h.data[3]);
    }
}

/// State of the XoShiro256+ engine: four 64-bit words.
pub struct XoShiro256Plus {
    /// The state words.
    pub data: [u64; 4],
}

impl Algorithm for XoShiro256Plus {
    type Output = u64;

    open spec fn spec_output(&self) -> u64 {
        self.data[0].wrapping_add(self.data[3])
    }

    open spec fn spec_step(&self) -> Self {
        let c = self.data[2] ^ self.data[0];
        let d = self.data[3] ^ self.data[1];
        XoShiro256Plus {
            data: [
                self.data[0] ^ d,
                self.data[1] ^ c,
                c ^ (self.data[1] << 17u64),
                spec_rotl64(d, 45),
            ],
        }
    }

    fn gen(&mut self) -> (r: u64) {
        let result: u64 = self.data[0].wrapping_add(self.data[3]);
        let t: u64 = self.data[1] << 17;
        let c: u64 = self.data[2] ^ self.data[0];
        let d: u64 = self.data[3] ^ self.data[1];
        let b: u64 = self.data[1] ^ c;
        let a: u64 = self.data[0] ^ d;
        self.data = [a, b, c ^ t, rotl64(d, 45)];
        result
    }
}

impl XoShiro256Plus {
    /// The state that the seeding stream `stream` gives:
    /// its first four 64-bit draws.
    pub open spec fn spec_seeded(stream: SplitMix64) -> Self {
        XoShiro256Plus {
            data: [
                spec_nth_draw(stream, 8, 0) as u64,
                spec_nth_draw(stream, 8, 1) as u64,
                spec_nth_draw(stream, 8, 2) as u64,
                spec_nth_draw(stream, 8, 3) as u64,
            ],
        }
    }
}

impl Default for XoShiro256Plus {
    /// The engine in the state that the default seeding stream gives.
    fn default() -> (r: Self)
        ensures
            r == XoShiro256Plus::spec_seeded(spec_default_stream()),
    {
        let data = make_4_u64(PRNG { generator: make_default_stream() });
        assert(data =~= XoShiro256Plus::spec_seeded(spec_default_stream()).data);
        XoShiro256Plus { data }
    }
}

impl<T: AlgorithmOutput> From<T> for XoShiro256Plus {
    /// The engine in the state that the seeding stream of `value` gives.
    fn from(value: T) -> (r: Self) {
        let data = make_4_u64(PRNG { generator: make_stream(value) });
        assert(data =~= XoShiro256Plus::spec_seeded(spec_stream(value.spec_value())).data);
        XoShiro256Plus { data }
    }
}

impl<T: AlgorithmOutput> vstd::std_specs::convert::FromSpecImpl<T> for XoShiro256Plus {
    open spec fn obeys_from_spec() -> bool {
        true
    }

    open spec fn from_spec(value: T) -> Self {
        XoShiro256Plus::spec_seeded(spec_stream(value.spec_value()))
    }
}

impl XoShiro256Plus {
    /// Whether every word of the state is zero.
    pub open spec fn is_zero(&self) -> bool {
        self.data[0] == 0 && self.data[1] == 0 && self.data[2] == 0 && self.data[3] == 0
    }
}

/// The XoShiro256+ transition on words: equal successors have equal
/// predecessors, and the zero state steps to the zero state.
proof fn lemma_xoshiro256plus_words(
    a0: u64,
    a1: u64,
    a2: u64,
    a3: u64,
    b0: u64,
    b1: u64,
    b2: u64,
    b3: u64,
)
    by (bit_vector)
    ensures
        ({
            &&& a0 ^ (a3 ^ a1) == b0 ^ (b3 ^ b1)
            &&& a1 ^ (a2 ^ a0) == b1 ^ (b2 ^ b0)
            &&& (a2 ^ a0) ^ (a1 << 17u64) == (b2 ^ b0) ^ (b1 << 17u64)
            &&& spec_rotl64(a3 ^ a1, 45) == spec_rotl64(b3 ^ b1, 45)
        }) ==> a0 == b0 && a1 == b1 && a2 == b2 && a3 == b3,
        a0 == 0 && a1 == 0 && a2 == 0 && a3 == 0 ==> ({
            &&& a0 ^ (a3 ^ a1) == 0
            &&& a1 ^ (a2 ^ a0) == 0
            &&& (a2 ^ a0) ^ (a1 << 17u64) == 0
            &&& spec_rotl64(a3 ^ a1, 45) == 0
        }),
{
}

/// The XoShiro256+ transition is one to one: states with equal successors
/// are equal, so every state lies on a cycle.
pub proof fn lemma_xoshiro256plus_step_injective(a: XoShiro256Plus, b: XoShiro256Plus)
    requires
        a.spec_step() == b.spec_step(),
    ensures
        a == b,
{
    let x = a.spec_step().data;
    let y = b.spec_step().data;
    assert(x[0] == y[0] && x[1] == y[1] && x[2] == y[2] && x[3] == y[3]);
    lemma_xoshiro256plus_words(
        a.data[0],
        a.data[1],
        a.data[2],
        a.data[3],
        b.data[0],
        b.data[1],
        b.data[2],
        b.data[3],
    );
    assert(a.data =~= b.data);
}

/// The all-zero state of XoShiro256+ is closed off: it steps to itself, and
/// no other state ever steps into it. An engine that starts outside it stays
/// outside it.
pub proof fn lemma_xoshiro256plus_zero_state(g: XoShiro256Plus, n: nat)
    ensures
        spec_steps(g, n).is_zero() <==> g.is_zero(),
    decreases n,
{
    if n > 0 {
        let h = spec_steps(g, (n - 1) as nat);
        lemma_xoshiro256plus_zero_state(g, (n - 1) as nat);
        lemma_xoshiro256plus_words(h.data[0], h.data[1], h.data[2], h.data[3], 0, 0, 0, 0);
        lemma_xoshiro256plus_words(0, 0, 0, 0, h.data[0], h.data[1], h.data[2], h.data[3]);
    }
}

} // verus!
