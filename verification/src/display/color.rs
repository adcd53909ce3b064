//! Pixel encodings: RGB565 packing, expansion to packed RGB888, and the
//! byte order of a 16-bit pixel in device memory.

use vstd::prelude::*;

verus! {

/// A pixel in RGB565: five bits of red, six of green, five of blue, red in
/// the most significant bits.
pub type Rgb565 = u16;

/// The RGB565 pixel made of the top five, six and five bits of the three
/// channels.
pub open spec fn pack_565(r: u8, g: u8, b: u8) -> u16 {
    ((r as int / 8) * 2048 + (g as int / 4) * 32 + (b as int / 8)) as u16
}

/// Red channel of an RGB565 pixel, in `0..32`.
pub open spec fn red_565(pixel: u16) -> int {
    pixel as int / 2048
}

/// Green channel of an RGB565 pixel, in `0..64`.
pub open spec fn green_565(pixel: u16) -> int {
    (pixel as int / 32) % 64
}

/// Blue channel of an RGB565 pixel, in `0..32`.
pub open spec fn blue_565(pixel: u16) -> int {
    pixel as int % 32
}

/// Red channel of a packed `0x00RRGGBB` pixel.
pub open spec fn red_888(pixel: u32) -> u8 {
    ((pixel as int / 65536) % 256) as u8
}

/// Green channel of a packed `0x00RRGGBB` pixel.
pub open spec fn green_888(pixel: u32) -> u8 {
    ((pixel as int / 256) % 256) as u8
}

/// Blue channel of a packed `0x00RRGGBB` pixel.
pub open spec fn blue_888(pixel: u32) -> u8 {
    (pixel as int % 256) as u8
}

/// The packed `0x00RRGGBB` pixel that an RGB565 pixel widens to. Each
/// channel is shifted up to eight bits and its top bits are repeated in the
/// freed low bits, so that full intensity stays full intensity.
pub open spec fn expand_565(pixel: u16) -> u32 {
    let r = red_565(pixel);
    let g = green_565(pixel);
    let b = blue_565(pixel);
    ((r * 8 + r / 4) * 65536 + (g * 4 + g / 16) * 256 + (b * 8 + b / 4)) as u32
}

/// Packs three eight-bit channels into RGB565, dropping the low bits of each.
pub fn rgb_to_565(r: u8, g: u8, b: u8) -> (pixel: Rgb565)
    ensures
        pixel == pack_565(r, g, b),
        red_565(pixel) == r / 8,
        green_565(pixel) == g / 4,
        blue_565(pixel) == b / 8,
{
    let pixel: u16 = ((r as u16 >> 3) << 11) | ((g as u16 >> 2) << 5) | (b as u16 >> 3);
    assert(pixel == (r as u16 / 8) * 2048 + (g as u16 / 4) * 32 + (b as u16 / 8)) by (bit_vector)
        requires
            pixel == ((r as u16 >> 3) << 11) | ((g as u16 >> 2) << 5) | (b as u16 >> 3),
    ;
    pixel
}

/// Converts a packed `0xAARRGGBB` pixel to RGB565. The alpha byte is ignored.
pub fn argb_to_565(pixel: u32) -> (packed: Rgb565)
    ensures
        packed == pack_565(red_888(pixel), green_888(pixel), blue_888(pixel)),
{
    let r: u8 = ((pixel >> 16) & 0xFF) as u8;
    let g: u8 = ((pixel >> 8) & 0xFF) as u8;
    let b: u8 = (pixel & 0xFF) as u8;
    assert((pixel >> 16) & 0xFF == (pixel / 65536) % 256) by (bit_vector);
    assert((pixel >> 8) & 0xFF == (pixel / 256) % 256) by (bit_vector);
    assert(pixel & 0xFF == pixel % 256) by (bit_vector);
    rgb_to_565(r, g, b)
}

/// Widens an RGB565 pixel to packed `0x00RRGGBB`.
pub fn rgb565_to_u32(pixel: Rgb565) -> (wide: u32)
    ensures
        wide == expand_565(pixel),
        wide <= 0x00FF_FFFF,
{
    let r: u32 = ((pixel >> 11) & 0x1F) as u32;
    let g: u32 = ((pixel >> 5) & 0x3F) as u32;
    let b: u32 = (pixel & 0x1F) as u32;
    assert((pixel >> 11) & 0x1F == pixel / 2048) by (bit_vector);
    assert((pixel >> 5) & 0x3F == (pixel / 32) % 64) by (bit_vector);
    assert(pixel & 0x1F == pixel % 32) by (bit_vector);
    let r8: u32 = (r << 3) | (r >> 2);
    let g8: u32 = (g << 2) | (g >> 4);
    let b8: u32 = (b << 3) | (b >> 2);
    assert(r8 == r * 8 + r / 4) by (bit_vector)
        requires
            r < 32,
            r8 == (r << 3) | (r >> 2),
    ;
    assert(g8 == g * 4 + g / 16) by (bit_vector)
        requires
            g < 64,
            g8 == (g << 2) | (g >> 4),
    ;
    assert(b8 == b * 8 + b / 4) by (bit_vector)
        requires
            b < 32,
            b8 == (b << 3) | (b >> 2),
    ;
    let wide: u32 = (r8 << 16) | (g8 << 8) | b8;
    assert(wide == r8 * 65536 + g8 * 256 + b8) by (bit_vector)
        requires
            r8 < 256,
            g8 < 256,
            b8 < 256,
            wide == (r8 << 16) | (g8 << 8) | b8,
    ;
    wide
}

/// Narrowing a widened pixel gives the pixel back: widening loses nothing.
pub proof fn lemma_expand_then_pack(pixel: u16)
    ensures
        pack_565(
            red_888(expand_565(pixel)),
            green_888(expand_565(pixel)),
            blue_888(expand_565(pixel)),
        ) == pixel,
{
    let p: u32 = pixel as u32;
    let r: u32 = p / 2048;
    let g: u32 = (p / 32) % 64;
    let b: u32 = p % 32;
    let wide: u32 = expand_565(pixel);
    assert(wide == (r * 8 + r / 4) * 65536 + (g * 4 + g / 16) * 256 + (b * 8 + b / 4));
    assert((((wide / 65536) % 256) / 8) * 2048 + (((wide / 256) % 256) / 4) * 32 + (wide % 256)
        / 8 == p) by (bit_vector)
        requires
            p < 65536,
            r == p / 2048,
            g == (p / 32) % 64,
            b == p % 32,
            wide == (r * 8 + r / 4) * 65536 + (g * 4 + g / 16) * 256 + (b * 8 + b / 4),
    ;
}

/// The order in which the two bytes of a 16-bit value lie in device memory.
#[derive(Clone, Copy, Debug, PartialEq, Eq, Structural)]
pub enum ByteOrder {
    /// Least significant byte first.
    LittleEndian,
    /// Most significant byte first.
    BigEndian,
}

/// The byte at the lower address of `value` stored in `order`.
pub open spec fn first_byte(value: u16, order: ByteOrder) -> u8 {
    match order {
        ByteOrder::LittleEndian => (value % 256) as u8,
        ByteOrder::BigEndian => (value / 256) as u8,
    }
}

/// The byte at the higher address of `value` stored in `order`.
pub open spec fn second_byte(value: u16, order: ByteOrder) -> u8 {
    match order {
        ByteOrder::LittleEndian => (value / 256) as u8,
        ByteOrder::BigEndian => (value % 256) as u8,
    }
}

/// The 16-bit value whose two bytes in memory, lower address first, are
/// `first` and `second`.
pub open spec fn word_of(first: u8, second: u8, order: ByteOrder) -> u16 {
    match order {
        ByteOrder::LittleEndian => (first as int + 256 * second as int) as u16,
        ByteOrder::BigEndian => (256 * first as int + second as int) as u16,
    }
}

/// The 32-bit value whose four bytes in memory, lowest address first, are
/// those of `bytes`.
pub open spec fn dword_of(bytes: Seq<u8>, order: ByteOrder) -> u32
    recommends
        bytes.len() == 4,
{
    match order {
        ByteOrder::LittleEndian => (bytes[0] as int + 256 * bytes[1] as int + 65536
            * bytes[2] as int + 16777216 * bytes[3] as int) as u32,
        ByteOrder::BigEndian => (16777216 * bytes[0] as int + 65536 * bytes[1] as int + 256
            * bytes[2] as int + bytes[3] as int) as u32,
    }
}

/// The signed value that a 32-bit pattern stands for in two's complement.
pub open spec fn signed_of(raw: u32) -> i32 {
    if raw < 0x8000_0000 {
        raw as i32
    } else {
        (raw as int - 0x1_0000_0000) as i32
    }
}

/// Splits a 16-bit value into its two bytes as they lie in memory.
pub fn encode_u16(value: u16, order: ByteOrder) -> (bytes: (u8, u8))
    ensures
        bytes.0 == first_byte(value, order),
        bytes.1 == second_byte(value, order),
        word_of(bytes.0, bytes.1, order) == value,
{
    let low: u8 = (value % 256) as u8;
    let high: u8 = (value / 256) as u8;
    match order {
        ByteOrder::LittleEndian => (low, high),
        ByteOrder::BigEndian => (high, low),
    }
}

/// Joins two bytes, lower address first, into the 16-bit value they hold.
pub fn decode_u16(first: u8, second: u8, order: ByteOrder) -> (value: u16)
    ensures
        value == word_of(first, second, order),
        first_byte(value, order) == first,
        second_byte(value, order) == second,
{
    match order {
        ByteOrder::LittleEndian => first as u16 + 256 * (second as u16),
        ByteOrder::BigEndian => 256 * (first as u16) + second as u16,
    }
}

/// Joins four bytes, lowest address first, into the signed 32-bit value they
/// hold in two's complement.
pub fn decode_i32(b0: u8, b1: u8, b2: u8, b3: u8, order: ByteOrder) -> (value: i32)
    ensures
        value == signed_of(dword_of(seq![b0, b1, b2, b3], order)),
{
    let raw: u32 = match order {
        ByteOrder::LittleEndian => b0 as u32 + 256 * (b1 as u32) + 65536 * (b2 as u32) + 16777216
            * (b3 as u32),
        ByteOrder::BigEndian => 16777216 * (b0 as u32) + 65536 * (b1 as u32) + 256 * (b2 as u32)
            + b3 as u32,
    };
    if raw < 0x8000_0000 {
        raw as i32
    } else {
        ((raw - 0x8000_0000) as i32) + i32::MIN
    }
}

} // verus!
