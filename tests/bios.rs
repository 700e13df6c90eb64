use gba::bios::{div, div_rem, rem, BitUnPackDataParams, BitUnpackDestinationBitWidth, BitUnpackSourceBitWidth};

#[test]
fn div_rem_rounds_toward_zero() {
    assert_eq!(div_rem(7, 2), (3, 1));
    assert_eq!(div_rem(-7, 2), (-3, -1));
    assert_eq!(div_rem(7, -2), (-3, 1));
    assert_eq!(div_rem(-7, -2), (3, -1));
    assert_eq!(div_rem(0, 5), (0, 0));
}

#[test]
fn div_rem_extremes() {
    assert_eq!(div_rem(i32::MIN, 1), (i32::MIN, 0));
    assert_eq!(div_rem(i32::MIN, 2), (-1073741824, 0));
    assert_eq!(div_rem(i32::MAX, -1), (-i32::MAX, 0));
    assert_eq!(div_rem(i32::MIN, i32::MAX), (-1, -1));
}

#[test]
fn div_and_rem_keep_one_part() {
    assert_eq!(div(100, 7), 14);
    assert_eq!(rem(100, 7), 2);
    assert_eq!(div(-100, 7), -14);
    assert_eq!(rem(-100, 7), -2);
}

#[test]
fn bit_unpack_widths() {
    assert_eq!(BitUnpackSourceBitWidth::Four.bits(), 4);
    assert_eq!(BitUnpackDestinationBitWidth::ThirtyTwo.bits(), 32);
    let p = BitUnPackDataParams(0x8000_0005);
    assert_eq!(p.data_offset(), 5);
    assert!(p.zero_data());
    assert!(!BitUnPackDataParams(7).zero_data());
}
