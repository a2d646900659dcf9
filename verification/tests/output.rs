//! The native output contract on the five unsigned integer types.
use smolprng::AlgorithmOutput;

#[test]
fn sizes_are_the_supported_powers_of_two() {
    assert_eq!(<u8 as AlgorithmOutput>::size(), 1);
    assert_eq!(<u16 as AlgorithmOutput>::size(), 2);
    assert_eq!(<u32 as AlgorithmOutput>::size(), 4);
    assert_eq!(<u64 as AlgorithmOutput>::size(), 8);
    assert_eq!(<u128 as AlgorithmOutput>::size(), 16);
    for size in [
        <u8 as AlgorithmOutput>::size(),
        <u16 as AlgorithmOutput>::size(),
        <u32 as AlgorithmOutput>::size(),
        <u64 as AlgorithmOutput>::size(),
        <u128 as AlgorithmOutput>::size(),
    ] {
        assert!(size.is_power_of_two());
        assert!(size <= 16);
    }
}

#[test]
fn casts_keep_the_low_bits() {
    let x = 0x0123_4567_89ab_cdef_fedc_ba98_7654_3210u128;
    assert_eq!(x.cast_to_u8(), 0x10);
    assert_eq!(x.cast_to_u16(), 0x3210);
    assert_eq!(x.cast_to_u32(), 0x7654_3210);
    assert_eq!(x.cast_to_u64(), 0xfedc_ba98_7654_3210);
    assert_eq!(x.cast_to_u128(), x);
    let y = 0xa1b2_c3d4u32;
    assert_eq!(y.cast_to_u8(), 0xd4);
    assert_eq!(y.cast_to_u16(), 0xc3d4);
    assert_eq!(y.cast_to_u32(), y);
    assert_eq!(y.cast_to_u64(), 0xa1b2_c3d4);
    assert_eq!(y.cast_to_u128(), 0xa1b2_c3d4);
    assert_eq!(0xabu8.cast_to_u128(), 0xab);
    assert_eq!(0xabcdu16.cast_to_u8(), 0xcd);
    assert_eq!(0x0123_4567_89ab_cdefu64.cast_to_u16(), 0xcdef);
}

#[test]
fn shift_right_is_a_logical_shift() {
    assert_eq!(0x80u8.shift_right(7), 1);
    assert_eq!(0xabcdu16.shift_right(8), 0xab);
    assert_eq!(0xa1b2_c3d4u32.shift_right(24), 0xa1);
    assert_eq!(0x0123_4567_89ab_cdefu64.shift_right(32), 0x0123_4567);
    assert_eq!((1u128 << 127).shift_right(127), 1);
    assert_eq!(0xffu8.shift_right(0), 0xff);
}

#[test]
fn get_low_reads_the_lowest_bit() {
    assert!(1u8.get_low());
    assert!(!2u8.get_low());
    assert!(0xffffu16.get_low());
    assert!(!0xfffeu16.get_low());
    assert!(!0x8000_0000u32.get_low());
    assert!(0x8000_0000_0000_0001u64.get_low());
    assert!(!(1u128 << 127).get_low());
    assert!(u128::MAX.get_low());
}
