//! A small pseudo-random number generation library.
//!
//! Interchangeable bit-generation engines stand behind one contract,
//! [`Algorithm`]. The front end [`PRNG`] adapts their native outputs to
//! unsigned integers of every width from 8 to 128 bits, booleans,
//! range-limited bytes, the bit patterns of uniform floats, and Bernoulli and
//! binomial draws. Every draw is a stated function of the engine state, and
//! every engine is seeded through one scheme.
pub mod algorithms;
pub mod smol_core;

pub use algorithms::{
    make_1_u128, make_1_u16, make_1_u32, make_1_u64, make_1_u8, make_2_u64, make_4_u32,
    make_4_u64, make_default_stream, make_stream, JsfLarge, MiddleSquare, Sfc32, Sfc32Small,
    SplitMix32, SplitMix64, StepGenerator128, StepGenerator16, StepGenerator32, StepGenerator64,
    StepGenerator8, XoShiro256Plus, XoShiro256PlusPlus, XoShiro256SuperStar, XorShift128,
    XorShift128Plus, XorShift32, XorShift64, XoroShiro128Plus, XoroShiro128PlusPlus,
    XoroShiro128SuperStar, LCG,
};
pub use smol_core::{Algorithm, AlgorithmOutput, PRNG};
