//! Width adaptation: narrowing keeps the top bytes, widening joins draws
//! high half first, booleans take the low bit.
use smolprng::{
    Algorithm, StepGenerator128, StepGenerator16, StepGenerator64, StepGenerator8, XorShift32,
    XorShift64, PRNG,
};

#[test]
fn byte_engine_widens_by_joining_draws() {
    let mut prng = PRNG { generator: StepGenerator8 { data: 0 } };
    assert_eq!(prng.gen_u16(), 0x0102);
    assert_eq!(prng.gen_u32(), 0x0304_0506);
    assert_eq!(prng.gen_u64(), 0x0708_090a_0b0c_0d0e);
    assert_eq!(prng.gen_u128(), 0x0f10_1112_1314_1516_1718_191a_1b1c_1d1e);
    assert_eq!(prng.generator.data, 30);
}

#[test]
fn wide_engine_narrows_to_top_bytes() {
    let mut prng = PRNG { generator: StepGenerator64 { data: 0x0123_4567_89ab_cdee } };
    assert_eq!(prng.gen_u8(), 0x01);
    assert_eq!(prng.gen_u16(), 0x0123);
    assert_eq!(prng.gen_u32(), 0x0123_4567);
    assert_eq!(prng.gen_u64(), 0x0123_4567_89ab_cdf2);
    assert_eq!(prng.gen_u128(), 0x0123_4567_89ab_cdf3_0123_4567_89ab_cdf4);
}

#[test]
fn widest_engine_narrows_to_top_bytes() {
    let start = 0x0001_0203_0405_0607_0809_0a0b_0c0d_0e0fu128;
    let mut prng = PRNG { generator: StepGenerator128 { data: start } };
    assert_eq!(prng.gen_u8(), 0x00);
    assert_eq!(prng.gen_u16(), 0x0001);
    assert_eq!(prng.gen_u32(), 0x0001_0203);
    assert_eq!(prng.gen_u64(), 0x0001_0203_0405_0607);
    assert_eq!(prng.gen_u128(), start + 5);
}

#[test]
fn native_width_passes_the_output_through() {
    let mut engine = XorShift32 { data: 1 };
    let mut prng = PRNG { generator: XorShift32 { data: 1 } };
    for _ in 0..1000 {
        assert_eq!(prng.gen_u32(), engine.gen());
    }
    let mut engine = XorShift64 { data: 1 };
    let mut prng = PRNG { generator: XorShift64 { data: 1 } };
    for _ in 0..1000 {
        assert_eq!(prng.gen_u64(), engine.gen());
    }
    let mut prng = PRNG { generator: StepGenerator16 { data: 0 } };
    assert_eq!(prng.gen_u16(), 1);
    let mut prng = PRNG { generator: StepGenerator8 { data: 0xfe } };
    assert_eq!(prng.gen_u8(), 0xff);
    assert_eq!(prng.gen_u8(), 0x00);
}

#[test]
fn double_width_joins_two_native_draws() {
    let mut engine = XorShift32 { data: 1 };
    let mut prng = PRNG { generator: XorShift32 { data: 1 } };
    for _ in 0..1000 {
        let high = engine.gen() as u64;
        let low = engine.gen() as u64;
        assert_eq!(prng.gen_u64(), (high << 32) | low);
    }
    let mut engine = XorShift64 { data: 1 };
    let mut prng = PRNG { generator: XorShift64 { data: 1 } };
    for _ in 0..1000 {
        let high = engine.gen() as u128;
        let low = engine.gen() as u128;
        assert_eq!(prng.gen_u128(), (high << 64) | low);
    }
}

#[test]
fn xorshift32_known_wide_draws() {
    let mut prng = PRNG { generator: XorShift32 { data: 1 } };
    assert_eq!(prng.gen_u64(), 0x0004_2021_0408_0601);
    assert_eq!(prng.gen_u64(), 0x9dcc_a8c5_1255_994f);
    let mut prng = PRNG { generator: XorShift32 { data: 1 } };
    assert_eq!(prng.gen_u128(), 0x0004_2021_0408_0601_9dcc_a8c5_1255_994f);
    let mut prng = PRNG { generator: XorShift32 { data: 1 } };
    assert_eq!(prng.gen_u8(), 0x00);
    assert_eq!(prng.gen_u16(), 0x0408);
}

#[test]
fn bool_is_the_low_bit_of_one_native_draw() {
    let mut prng = PRNG { generator: StepGenerator64 { data: 0 } };
    for i in 1..=100u64 {
        assert_eq!(prng.gen_bool(), i % 2 == 1);
        assert_eq!(prng.generator.data, i);
    }
    let mut engine = XorShift64 { data: 0x1234_5678 };
    let mut prng = PRNG { generator: XorShift64 { data: 0x1234_5678 } };
    for _ in 0..1000 {
        assert_eq!(prng.gen_bool(), engine.gen() & 1 == 1);
    }
}

#[test]
fn every_draw_takes_at_least_one_step() {
    let mut prng = PRNG { generator: StepGenerator64 { data: 0 } };
    prng.gen_u8();
    assert_eq!(prng.generator.data, 1);
    prng.gen_u64();
    assert_eq!(prng.generator.data, 2);
    prng.gen_u128();
    assert_eq!(prng.generator.data, 4);
    let mut prng = PRNG { generator: StepGenerator16 { data: 0 } };
    prng.gen_u128();
    assert_eq!(prng.generator.data, 8);
}

#[test]
fn take_native_returns_successive_outputs() {
    let mut prng = PRNG { generator: StepGenerator8 { data: 250 } };
    assert_eq!(prng.take_native(8), vec![251, 252, 253, 254, 255, 0, 1, 2]);
    assert_eq!(prng.generator.data, 2);
    assert_eq!(prng.take_native(0), Vec::<u8>::new());
    let mut engine = XorShift32 { data: 1 };
    let mut prng = PRNG { generator: XorShift32 { data: 1 } };
    let taken = prng.take_native(4);
    assert_eq!(taken, vec![0x0004_2021, 0x0408_0601, 0x9dcc_a8c5, 0x1255_994f]);
    for word in taken {
        assert_eq!(word, engine.gen());
    }
}
