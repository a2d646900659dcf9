//! Range-limited bytes by masked rejection, with a bound on the attempts.
use smolprng::{JsfLarge, SplitMix64, StepGenerator8, PRNG};

#[test]
fn accepts_the_first_masked_byte_below_the_range() {
    // range 4, mask 7: bytes 1, 2, 3 pass; 4 to 7 are rejected; 8 masks to 0
    let mut prng = PRNG { generator: StepGenerator8 { data: 0 } };
    assert_eq!(prng.gen_u8_in_range::<5>(1), Some(1));
    assert_eq!(prng.gen_u8_in_range::<5>(1), Some(2));
    assert_eq!(prng.gen_u8_in_range::<5>(1), Some(3));
    assert_eq!(prng.gen_u8_in_range::<5>(1), None);
    assert_eq!(prng.gen_u8_in_range::<5>(1), None);
    assert_eq!(prng.gen_u8_in_range::<5>(1), None);
    assert_eq!(prng.gen_u8_in_range::<5>(1), None);
    assert_eq!(prng.gen_u8_in_range::<5>(1), Some(0));
    assert_eq!(prng.gen_u8_in_range::<5>(1), Some(1));
    assert_eq!(prng.generator.data, 9);
}

#[test]
fn redraws_until_a_byte_is_accepted() {
    let mut prng = PRNG { generator: StepGenerator8 { data: 3 } };
    assert_eq!(prng.gen_u8_in_range::<5>(5), Some(0));
    assert_eq!(prng.generator.data, 8);
}

#[test]
fn gives_up_after_the_attempt_bound() {
    let mut prng = PRNG { generator: StepGenerator8 { data: 3 } };
    assert_eq!(prng.gen_u8_in_range::<5>(3), None);
    assert_eq!(prng.generator.data, 6);
    assert_eq!(prng.gen_u8_in_range::<5>(2), Some(0));
    assert_eq!(prng.generator.data, 8);
    assert_eq!(prng.gen_u8_in_range::<5>(0), None);
    assert_eq!(prng.generator.data, 8);
}

#[test]
fn empty_range_rejects_every_byte() {
    let mut prng = PRNG { generator: StepGenerator8 { data: 0 } };
    assert_eq!(prng.gen_u8_in_range::<1>(10), None);
    assert_eq!(prng.generator.data, 10);
}

#[test]
fn range_of_one_accepts_only_zero() {
    // range 1, mask 1: odd bytes are rejected, even bytes give 0
    let mut prng = PRNG { generator: StepGenerator8 { data: 0 } };
    assert_eq!(prng.gen_u8_in_range::<2>(1), None);
    assert_eq!(prng.gen_u8_in_range::<2>(1), Some(0));
    assert_eq!(prng.gen_u8_in_range::<2>(4), Some(0));
    assert_eq!(prng.generator.data, 4);
}

#[test]
fn full_range_uses_the_whole_byte() {
    let mut prng = PRNG { generator: StepGenerator8 { data: 0xfc } };
    assert_eq!(prng.gen_u8_in_range::<255>(1), Some(0xfd));
    assert_eq!(prng.gen_u8_in_range::<255>(1), None);
    assert_eq!(prng.gen_u8_in_range::<255>(1), None);
    assert_eq!(prng.gen_u8_in_range::<255>(1), Some(0));
}

#[test]
fn known_draws_from_seeded_engines() {
    let mut prng = PRNG { generator: SplitMix64::default() };
    let mut drawn = Vec::new();
    for _ in 0..8 {
        drawn.push(prng.gen_u8_in_range::<10>(1000));
    }
    assert_eq!(
        drawn,
        vec![Some(3), Some(6), Some(4), Some(6), Some(3), Some(4), Some(4), Some(6)]
    );
    let mut prng = PRNG { generator: JsfLarge::default() };
    let mut drawn = Vec::new();
    for _ in 0..8 {
        drawn.push(prng.gen_u8_in_range::<200>(1000));
    }
    assert_eq!(
        drawn,
        vec![Some(76), Some(152), Some(124), Some(155), Some(126), Some(107), Some(106), Some(48)]
    );
}

#[test]
fn accepted_bytes_stay_below_the_range() {
    let mut prng = PRNG { generator: JsfLarge::default() };
    for _ in 0..10_000 {
        if let Some(x) = prng.gen_u8_in_range::<7>(64) {
            assert!(x < 6);
        }
        if let Some(x) = prng.gen_u8_in_range::<129>(64) {
            assert!(x < 128);
        }
        if let Some(x) = prng.gen_u8_in_range::<255>(64) {
            assert!(x < 254);
        }
    }
}
