//! The front end works on any engine that meets the contract, here one that
//! replays a fixed list of words.
use smolprng::{Algorithm, PRNG};

struct Replay {
    words: Vec<u32>,
    next: usize,
}

impl Algorithm for Replay {
    type Output = u32;

    fn spec_output(&self) -> u32 {
        self.words[self.next % self.words.len()]
    }

    fn spec_step(&self) -> Self {
        Replay { words: self.words.clone(), next: self.next + 1 }
    }

    fn gen(&mut self) -> u32 {
        let word = self.spec_output();
        *self = self.spec_step();
        word
    }
}

fn replay(words: &[u32]) -> PRNG<Replay> {
    PRNG { generator: Replay { words: words.to_vec(), next: 0 } }
}

#[test]
fn replayed_words_are_narrowed_from_the_top() {
    let mut prng = replay(&[0xa1b2_c3d4, 0x0102_0304, 0xffff_0000]);
    assert_eq!(prng.gen_u8(), 0xa1);
    assert_eq!(prng.gen_u16(), 0x0102);
    assert_eq!(prng.gen_u32(), 0xffff_0000);
    assert_eq!(prng.generator.next, 3);
}

#[test]
fn replayed_words_are_joined_high_half_first() {
    let mut prng = replay(&[0xa1b2_c3d4, 0x0102_0304, 0xffff_0000, 0x1234_5678]);
    assert_eq!(prng.gen_u64(), 0xa1b2_c3d4_0102_0304);
    assert_eq!(prng.gen_u64(), 0xffff_0000_1234_5678);
    assert_eq!(prng.gen_u128(), 0xa1b2_c3d4_0102_0304_ffff_0000_1234_5678);
    assert_eq!(prng.generator.next, 8);
}

#[test]
fn replayed_words_give_their_low_bit_as_bool() {
    let mut prng = replay(&[0x8000_0000, 0x0000_0001, 0xffff_fffe, 0xffff_ffff]);
    assert!(!prng.gen_bool());
    assert!(prng.gen_bool());
    assert!(!prng.gen_bool());
    assert!(prng.gen_bool());
}

#[test]
fn replayed_words_give_unit_patterns_from_their_top_bits() {
    let mut prng = replay(&[0xffff_ffff, 0xffff_ffff, 0x0000_0000, 0x0000_0fff, 0x8000_0000]);
    assert_eq!(prng.gen_f64_bits(), 0x3fff_ffff_ffff_ffff);
    assert_eq!(prng.gen_f64_bits(), 0x3ff0_0000_0000_0000);
    assert_eq!(prng.gen_f32_bits(), 0x3fc0_0000);
    assert_eq!(f32::from_bits(0x3fc0_0000) - 1.0, 0.5);
}

#[test]
fn replayed_bytes_are_masked_and_rejected() {
    // range 9, mask 15: 0x2f masks to 15, 0x19 to 9, 0x38 to 8
    let mut prng = replay(&[0x2f00_0000, 0x1900_0000, 0x3800_0000]);
    assert_eq!(prng.gen_u8_in_range::<10>(2), None);
    assert_eq!(prng.gen_u8_in_range::<10>(2), Some(8));
    assert_eq!(prng.generator.next, 3);
}
