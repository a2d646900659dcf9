//! The unit-interval bit patterns: as floats they lie in [1, 2), and one less
//! lies in [0, 1).
use smolprng::{
    Algorithm, JsfLarge, MiddleSquare, Sfc32, Sfc32Small, SplitMix32, SplitMix64,
    StepGenerator128, StepGenerator16, StepGenerator32, StepGenerator64, StepGenerator8,
    XoShiro256Plus, XoShiro256PlusPlus, XoShiro256SuperStar, XorShift128, XorShift128Plus,
    XorShift32, XorShift64, XoroShiro128Plus, XoroShiro128PlusPlus, XoroShiro128SuperStar, LCG,
    PRNG,
};

fn unit_floats_in_range<T: Algorithm>(generator: T) {
    let mut prng = PRNG { generator };
    for _ in 0..10_000 {
        let x = f64::from_bits(prng.gen_f64_bits()) - 1.0f64;
        assert!((0.0..1.0).contains(&x));
        let y = f32::from_bits(prng.gen_f32_bits()) - 1.0f32;
        assert!((0.0..1.0).contains(&y));
    }
}

#[test]
fn unit_floats_lie_in_the_unit_interval_for_step_generators() {
    unit_floats_in_range(StepGenerator8::default());
    unit_floats_in_range(StepGenerator16::default());
    unit_floats_in_range(StepGenerator32::default());
    unit_floats_in_range(StepGenerator64::default());
    unit_floats_in_range(StepGenerator128::default());
}

#[test]
fn unit_floats_lie_in_the_unit_interval_for_mixers() {
    unit_floats_in_range(SplitMix32::default());
    unit_floats_in_range(SplitMix64::default());
    unit_floats_in_range(JsfLarge::default());
    unit_floats_in_range(LCG::default());
    unit_floats_in_range(MiddleSquare::default());
    unit_floats_in_range(Sfc32::default());
    unit_floats_in_range(Sfc32Small::default());
}

#[test]
fn unit_floats_lie_in_the_unit_interval_for_shift_register_engines() {
    unit_floats_in_range(XorShift32::default());
    unit_floats_in_range(XorShift64::default());
    unit_floats_in_range(XorShift128::default());
    unit_floats_in_range(XorShift128Plus::default());
    unit_floats_in_range(XoroShiro128Plus::default());
    unit_floats_in_range(XoroShiro128PlusPlus::default());
    unit_floats_in_range(XoroShiro128SuperStar::default());
    unit_floats_in_range(XoShiro256Plus::default());
    unit_floats_in_range(XoShiro256PlusPlus::default());
    unit_floats_in_range(XoShiro256SuperStar::default());
}

#[test]
fn double_pattern_has_the_top_52_bits_as_mantissa() {
    let mut prng = PRNG { generator: SplitMix64 { data: 0 } };
    assert_eq!(prng.gen_f64_bits(), 0x3ffe_220a_8397_b1dc);
    let mut prng = PRNG { generator: SplitMix64 { data: 0 } };
    assert_eq!(f64::from_bits(prng.gen_f64_bits()) - 1.0, 0.8833108082136425);
    let mut prng = PRNG { generator: StepGenerator64 { data: u64::MAX } };
    assert_eq!(prng.gen_f64_bits(), 0x3ff0_0000_0000_0000);
    let mut prng = PRNG { generator: StepGenerator64 { data: u64::MAX - 1 } };
    assert_eq!(prng.gen_f64_bits(), 0x3fff_ffff_ffff_ffff);
    assert_eq!(f64::from_bits(0x3fff_ffff_ffff_ffff) - 1.0, 1.0 - f64::EPSILON);
}

#[test]
fn single_pattern_has_the_top_23_bits_as_mantissa() {
    let mut prng = PRNG { generator: SplitMix64 { data: 0 } };
    prng.gen_u64();
    assert_eq!(prng.gen_f32_bits(), 0x3fb7_3c4f);
    let mut prng = PRNG { generator: StepGenerator32 { data: u32::MAX } };
    assert_eq!(prng.gen_f32_bits(), 0x3f80_0000);
    let mut prng = PRNG { generator: StepGenerator32 { data: u32::MAX - 1 } };
    assert_eq!(prng.gen_f32_bits(), 0x3fff_ffff);
    assert_eq!(f32::from_bits(0x3fff_ffff) - 1.0, 1.0 - f32::EPSILON);
}

#[test]
fn mantissa_is_the_unit_double_scaled_by_two_to_the_52() {
    let mut a = PRNG { generator: JsfLarge::default() };
    let mut b = PRNG { generator: JsfLarge::default() };
    for _ in 0..10_000 {
        let mantissa = a.gen_mantissa();
        assert!(mantissa < 1u64 << 52);
        let unit = f64::from_bits(b.gen_f64_bits()) - 1.0;
        assert_eq!(unit, mantissa as f64 / (1u64 << 52) as f64);
    }
    let mut prng = PRNG { generator: SplitMix64 { data: 0 } };
    prng.gen_u64();
    prng.gen_u64();
    assert_eq!(prng.gen_mantissa(), 0x0000_6c45_d188_0094);
}
