use xcb_imdkit::imdkit::wire::{i32_to_u32, len_to_u16, len_to_u32, u32_to_i32};

#[test]
fn signed_numbers_travel_with_their_bits() {
    assert_eq!(i32_to_u32(0), 0);
    assert_eq!(i32_to_u32(7), 7);
    assert_eq!(i32_to_u32(-1), 0xffff_ffff);
    assert_eq!(i32_to_u32(i32::MIN), 0x8000_0000);
    assert_eq!(i32_to_u32(i32::MAX), 0x7fff_ffff);
}

#[test]
fn unsigned_numbers_are_read_with_their_bits() {
    assert_eq!(u32_to_i32(0), 0);
    assert_eq!(u32_to_i32(0xffff_ffff), -1);
    assert_eq!(u32_to_i32(0x8000_0000), i32::MIN);
    assert_eq!(u32_to_i32(0x7fff_ffff), i32::MAX);
    assert_eq!(u32_to_i32(i32_to_u32(-12345)), -12345);
}

#[test]
fn lengths_are_cut_down_to_the_field() {
    assert_eq!(len_to_u16(0), 0);
    assert_eq!(len_to_u16(65535), 65535);
    assert_eq!(len_to_u16(65536), 0);
    assert_eq!(len_to_u16(65537 + 65536), 1);
    assert_eq!(len_to_u32(12), 12);
    assert_eq!(len_to_u32(0xffff_ffff), 0xffff_ffff);
    assert_eq!(len_to_u32(0x1_0000_0005), 5);
}
