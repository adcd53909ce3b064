use openpager::display::color::{decode_i32, decode_u16, encode_u16};
use openpager::display::{argb_to_565, rgb565_to_u32, rgb_to_565, ByteOrder};

#[test]
fn rgb_to_565_keeps_the_top_bits() {
    assert_eq!(rgb_to_565(0, 0, 0), 0x0000);
    assert_eq!(rgb_to_565(255, 255, 255), 0xFFFF);
    assert_eq!(rgb_to_565(255, 0, 0), 0xF800);
    assert_eq!(rgb_to_565(0, 255, 0), 0x07E0);
    assert_eq!(rgb_to_565(0, 0, 255), 0x001F);
    assert_eq!(rgb_to_565(0x28, 0x2A, 0x36), 0x2946);
    assert_eq!(rgb_to_565(7, 3, 7), 0x0000);
    assert_eq!(rgb_to_565(8, 4, 8), 0x0821);
}

#[test]
fn argb_to_565_ignores_alpha() {
    assert_eq!(argb_to_565(0xFF28_2A36), 0x2946);
    assert_eq!(argb_to_565(0x0028_2A36), 0x2946);
    assert_eq!(argb_to_565(0x12FF_FFFF), 0xFFFF);
    assert_eq!(argb_to_565(0x00F8_F8F2), rgb_to_565(0xF8, 0xF8, 0xF2));
}

#[test]
fn rgb565_to_u32_repeats_the_top_bits() {
    assert_eq!(rgb565_to_u32(0x0000), 0x0000_0000);
    assert_eq!(rgb565_to_u32(0xFFFF), 0x00FF_FFFF);
    assert_eq!(rgb565_to_u32(0xF800), 0x00FF_0000);
    assert_eq!(rgb565_to_u32(0x07E0), 0x0000_FF00);
    assert_eq!(rgb565_to_u32(0x001F), 0x0000_00FF);
    assert_eq!(rgb565_to_u32(0x2946), 0x0029_2831);
}

#[test]
fn widening_then_packing_is_the_identity() {
    for pixel in 0..=u16::MAX {
        assert_eq!(argb_to_565(rgb565_to_u32(pixel)), pixel);
    }
}

#[test]
fn sixteen_bit_values_in_both_byte_orders() {
    assert_eq!(encode_u16(0x1234, ByteOrder::LittleEndian), (0x34, 0x12));
    assert_eq!(encode_u16(0x1234, ByteOrder::BigEndian), (0x12, 0x34));
    assert_eq!(decode_u16(0x34, 0x12, ByteOrder::LittleEndian), 0x1234);
    assert_eq!(decode_u16(0x34, 0x12, ByteOrder::BigEndian), 0x3412);
    for value in [0u16, 1, 255, 256, 0x8000, 0xFFFF] {
        for order in [ByteOrder::LittleEndian, ByteOrder::BigEndian] {
            let (first, second) = encode_u16(value, order);
            assert_eq!(decode_u16(first, second, order), value);
        }
    }
    assert_eq!(encode_u16(0xBEEF, ByteOrder::LittleEndian), 0xBEEFu16.to_le_bytes().into());
    assert_eq!(encode_u16(0xBEEF, ByteOrder::BigEndian), 0xBEEFu16.to_be_bytes().into());
}

#[test]
fn signed_values_in_both_byte_orders() {
    assert_eq!(decode_i32(1, 0, 0, 0, ByteOrder::LittleEndian), 1);
    assert_eq!(decode_i32(0, 0, 0, 1, ByteOrder::BigEndian), 1);
    assert_eq!(decode_i32(0xFF, 0xFF, 0xFF, 0xFF, ByteOrder::LittleEndian), -1);
    assert_eq!(decode_i32(0, 0, 0, 0x80, ByteOrder::LittleEndian), i32::MIN);
    assert_eq!(decode_i32(0x7F, 0xFF, 0xFF, 0xFF, ByteOrder::BigEndian), i32::MAX);
    for value in [0i32, 1, 2, -1, -2, 0x1234_5678, -0x1234_5678, i32::MIN, i32::MAX] {
        let le = value.to_le_bytes();
        let be = value.to_be_bytes();
        assert_eq!(decode_i32(le[0], le[1], le[2], le[3], ByteOrder::LittleEndian), value);
        assert_eq!(decode_i32(be[0], be[1], be[2], be[3], ByteOrder::BigEndian), value);
    }
}
