//! The hardware display: the geometry that the device reports and a byte
//! buffer laid out as the device's memory is, row by row with the device's
//! line stride.

use crate::display::color::{decode_u16, encode_u16, first_byte, second_byte, word_of, ByteOrder,
    Rgb565};
use vstd::prelude::*;

verus! {

/// Position and width of one colour channel inside a pixel.
#[derive(Debug, Clone, Copy, PartialEq, Eq)]
pub struct FbBitfield {
    pub offset: u32,
    pub length: u32,
    pub msb_right: u32,
}

/// The variable part of what a framebuffer device reports: resolution, bit
/// depth, channel layout and timing. Field order follows the device's record.
#[derive(Debug, Clone, Copy, PartialEq, Eq)]
pub struct FbVarScreeninfo {
    pub xres: u32,
    pub yres: u32,
    pub xres_virtual: u32,
    pub yres_virtual: u32,
    pub xoffset: u32,
    pub yoffset: u32,
    pub bits_per_pixel: u32,
    pub grayscale: u32,
    pub red: FbBitfield,
    pub green: FbBitfield,
    pub blue: FbBitfield,
    pub transp: FbBitfield,
    pub nonstd: u32,
    pub activate: u32,
    pub height: u32,
    pub width: u32,
    pub accel_flags: u32,
    pub pixclock: u32,
    pub left_margin: u32,
    pub right_margin: u32,
    pub upper_margin: u32,
    pub lower_margin: u32,
    pub hsync_len: u32,
    pub vsync_len: u32,
    pub sync: u32,
    pub vmode: u32,
    pub rotate: u32,
    pub colorspace: u32,
    pub reserved: [u32; 4],
}

/// The fixed part of what a framebuffer device reports: where its memory is
/// and how long one row of it is. Addresses are held in 64 bits whatever the
/// device's word size.
#[derive(Debug, Clone, Copy, PartialEq, Eq)]
pub struct FbFixScreeninfo {
    pub id: [u8; 16],
    pub smem_start: u64,
    pub smem_len: u32,
    pub fb_type: u32,
    pub type_aux: u32,
    pub visual: u32,
    pub xpanstep: u16,
    pub ypanstep: u16,
    pub ywrapstep: u16,
    pub line_length: u32,
    pub mmio_start: u64,
    pub mmio_len: u32,
    pub accel: u32,
    pub capabilities: u16,
    pub reserved: [u16; 2],
}

impl FbBitfield {
    /// Every field is zero.
    pub open spec fn is_zero(&self) -> bool {
        self.offset == 0 && self.length == 0 && self.msb_right == 0
    }
}

impl FbVarScreeninfo {
    /// Every field is zero.
    pub open spec fn is_zero(&self) -> bool {
        &&& self.xres == 0 && self.yres == 0 && self.xres_virtual == 0 && self.yres_virtual == 0
        &&& self.xoffset == 0 && self.yoffset == 0 && self.bits_per_pixel == 0 && self.grayscale
            == 0
        &&& self.red.is_zero() && self.green.is_zero() && self.blue.is_zero()
            && self.transp.is_zero()
        &&& self.nonstd == 0 && self.activate == 0 && self.height == 0 && self.width == 0
        &&& self.accel_flags == 0 && self.pixclock == 0 && self.left_margin == 0
            && self.right_margin == 0
        &&& self.upper_margin == 0 && self.lower_margin == 0 && self.hsync_len == 0
            && self.vsync_len == 0
        &&& self.sync == 0 && self.vmode == 0 && self.rotate == 0 && self.colorspace == 0
        &&& self.reserved@ == seq![0u32, 0, 0, 0]
    }
}

impl FbFixScreeninfo {
    /// Every field is zero.
    pub open spec fn is_zero(&self) -> bool {
        &&& self.id@ == Seq::new(16, |i: int| 0u8)
        &&& self.smem_start == 0 && self.smem_len == 0 && self.fb_type == 0 && self.type_aux == 0
        &&& self.visual == 0 && self.xpanstep == 0 && self.ypanstep == 0 && self.ywrapstep == 0
        &&& self.line_length == 0 && self.mmio_start == 0 && self.mmio_len == 0 && self.accel == 0
        &&& self.capabilities == 0
        &&& self.reserved@ == seq![0u16, 0]
    }
}

impl Default for FbBitfield {
    fn default() -> (field: FbBitfield)
        ensures
            field.is_zero(),
    {
        FbBitfield { offset: 0, length: 0, msb_right: 0 }
    }
}

impl Default for FbVarScreeninfo {
    fn default() -> (info: FbVarScreeninfo)
        ensures
            info.is_zero(),
    {
        let zero = FbBitfield { offset: 0, length: 0, msb_right: 0 };
        let reserved: [u32; 4] = [0, 0, 0, 0];
        assert(reserved@ =~= seq![0u32, 0, 0, 0]);
        FbVarScreeninfo {
            xres: 0,
            yres: 0,
            xres_virtual: 0,
            yres_virtual: 0,
            xoffset: 0,
            yoffset: 0,
            bits_per_pixel: 0,
            grayscale: 0,
            red: zero,
            green: zero,
            blue: zero,
            transp: zero,
            nonstd: 0,
            activate: 0,
            height: 0,
            width: 0,
            accel_flags: 0,
            pixclock: 0,
            left_margin: 0,
            right_margin: 0,
            upper_margin: 0,
            lower_margin: 0,
            hsync_len: 0,
            vsync_len: 0,
            sync: 0,
            vmode: 0,
            rotate: 0,
            colorspace: 0,
            reserved,
        }
    }
}

impl Default for FbFixScreeninfo {
    fn default() -> (info: FbFixScreeninfo)
        ensures
            info.is_zero(),
    {
        let id: [u8; 16] = [0, 0, 0, 0, 0, 0, 0, 0, 0, 0, 0, 0, 0, 0, 0, 0];
        let reserved: [u16; 2] = [0, 0];
        assert(id@ =~= Seq::new(16, |i: int| 0u8));
        assert(reserved@ =~= seq![0u16, 0]);
        FbFixScreeninfo {
            id,
            smem_start: 0,
            smem_len: 0,
            fb_type: 0,
            type_aux: 0,
            visual: 0,
            xpanstep: 0,
            ypanstep: 0,
            ywrapstep: 0,
            line_length: 0,
            mmio_start: 0,
            mmio_len: 0,
            accel: 0,
            capabilities: 0,
            reserved,
        }
    }
}

/// A hardware display in memory: the reported geometry, the byte order of a
/// pixel, and the buffer that is written to the device.
pub struct Framebuffer {
    pub var_info: FbVarScreeninfo,
    pub fix_info: FbFixScreeninfo,
    pub byte_order: ByteOrder,
    pub buffer: Vec<u8>,
}

/// The bytes of a buffer after every whole two-byte unit of it, counted from
/// its start, is overwritten with `color`. A last odd byte stays.
pub open spec fn filled_bytes(bytes: Seq<u8>, color: Rgb565, order: ByteOrder) -> Seq<u8> {
    Seq::new(
        bytes.len(),
        |i: int|
            if 2 * (i / 2) + 1 < bytes.len() {
                if i % 2 == 0 {
                    first_byte(color, order)
                } else {
                    second_byte(color, order)
                }
            } else {
                bytes[i]
            },
    )
}

/// The two bytes of a pixel lie inside the buffer when the pixel is on the
/// display and a row is long enough for all its 16-bit pixels.
pub proof fn lemma_cell_in_buffer(x: int, y: int, xres: int, yres: int, stride: int)
    requires
        0 <= x < xres,
        0 <= y < yres,
        2 * xres <= stride,
    ensures
        0 <= y * stride,
        y * stride + 2 * x + 2 <= yres * stride,
{
    assert(y * stride >= 0) by (nonlinear_arith)
        requires
            y >= 0,
            stride >= 0,
    ;
    assert((y + 1) * stride <= yres * stride) by (nonlinear_arith)
        requires
            y + 1 <= yres,
            stride >= 0,
    ;
    assert((y + 1) * stride == y * stride + stride) by (nonlinear_arith);
}

/// The byte pairs of two different pixels of the display do not overlap.
pub proof fn lemma_cells_disjoint(x1: int, y1: int, x2: int, y2: int, xres: int, stride: int)
    requires
        0 <= x1 < xres,
        0 <= x2 < xres,
        0 <= y1,
        0 <= y2,
        2 * xres <= stride,
        x1 != x2 || y1 != y2,
    ensures
        y1 * stride + 2 * x1 + 2 <= y2 * stride + 2 * x2 || y2 * stride + 2 * x2 + 2 <= y1
            * stride + 2 * x1,
{
    if y1 < y2 {
        assert((y1 + 1) * stride <= y2 * stride) by (nonlinear_arith)
            requires
                y1 + 1 <= y2,
                stride >= 0,
        ;
        assert((y1 + 1) * stride == y1 * stride + stride) by (nonlinear_arith);
    } else if y2 < y1 {
        assert((y2 + 1) * stride <= y1 * stride) by (nonlinear_arith)
            requires
                y2 + 1 <= y1,
                stride >= 0,
        ;
        assert((y2 + 1) * stride == y2 * stride + stride) by (nonlinear_arith);
    }
}

/// A byte of a row lies inside the buffer.
pub proof fn lemma_row_in_buffer(y: int, column: int, yres: int, stride: int)
    requires
        0 <= y < yres,
        0 <= column < stride,
    ensures
        0 <= y * stride + column < yres * stride,
{
    assert(y * stride >= 0) by (nonlinear_arith)
        requires
            y >= 0,
            stride >= 0,
    ;
    assert((y + 1) * stride <= yres * stride) by (nonlinear_arith)
        requires
            y + 1 <= yres,
            stride >= 0,
    ;
    assert((y + 1) * stride == y * stride + stride) by (nonlinear_arith);
}

/// A padding byte of any row is neither of the two bytes of a pixel.
pub proof fn lemma_padding_outside_cell(
    v: int,
    column: int,
    x: int,
    y: int,
    xres: int,
    stride: int,
)
    requires
        0 <= x < xres,
        0 <= y,
        0 <= v,
        2 * xres <= column < stride,
    ensures
        v * stride + column != y * stride + 2 * x,
        v * stride + column != y * stride + 2 * x + 1,
{
    if v < y {
        assert((v + 1) * stride <= y * stride) by (nonlinear_arith)
            requires
                v + 1 <= y,
                stride >= 0,
        ;
        assert((v + 1) * stride == v * stride + stride) by (nonlinear_arith);
    } else if y < v {
        assert((y + 1) * stride <= v * stride) by (nonlinear_arith)
            requires
                y + 1 <= v,
                stride >= 0,
        ;
        assert((y + 1) * stride == y * stride + stride) by (nonlinear_arith);
    }
}

impl Framebuffer {
    /// The bytes of the buffer, as they are written to the device.
    pub open spec fn bytes(&self) -> Seq<u8> {
        self.buffer@
    }

    /// Bytes from the start of one row to the start of the next.
    pub open spec fn stride(&self) -> int {
        self.fix_info.line_length as int
    }

    /// The buffer holds exactly the rows that the geometry describes.
    pub open spec fn wf(&self) -> bool {
        self.bytes().len() == self.var_info.yres * self.fix_info.line_length
    }

    /// A row is long enough to hold a 16-bit pixel for every column, so that
    /// every pixel of the display has its two bytes inside its own row.
    pub open spec fn addressable(&self) -> bool {
        2 * self.var_info.xres <= self.fix_info.line_length
    }

    /// Ready for 16-bit pixel access: well formed, with rows long enough.
    pub open spec fn ready(&self) -> bool {
        self.wf() && self.addressable()
    }

    /// Whether `(x, y)` is a pixel of the display.
    pub open spec fn contains(&self, x: int, y: int) -> bool {
        0 <= x < self.var_info.xres && 0 <= y < self.var_info.yres
    }

    /// Where in the buffer the pixel at `(x, y)` starts. Rows are found by
    /// the line stride, not by the width.
    pub open spec fn offset_of(&self, x: int, y: int) -> int {
        y * self.stride() + 2 * x
    }

    /// The RGB565 pixel at `(x, y)`, read from its two bytes.
    pub open spec fn pixel(&self, x: int, y: int) -> Rgb565 {
        word_of(
            self.bytes()[self.offset_of(x, y)],
            self.bytes()[self.offset_of(x, y) + 1],
            self.byte_order,
        )
    }

    /// Byte `column` of row `y` of the buffer.
    pub open spec fn byte_at(&self, y: int, column: int) -> u8 {
        self.bytes()[y * self.stride() + column]
    }

    /// Whether `column` of row `y` is a byte past the row's pixels: padding
    /// that the device adds to each row and that no pixel write touches.
    pub open spec fn is_padding(&self, y: int, column: int) -> bool {
        0 <= y < self.var_info.yres && 2 * self.var_info.xres <= column < self.stride()
    }

    /// A display of the reported geometry with a zeroed buffer of one line
    /// stride for each row.
    pub fn new(var_info: FbVarScreeninfo, fix_info: FbFixScreeninfo, byte_order: ByteOrder) -> (fb:
        Framebuffer)
        requires
            var_info.yres * fix_info.line_length <= u32::MAX,
        ensures
            fb.wf(),
            fb.var_info == var_info,
            fb.fix_info == fix_info,
            fb.byte_order == byte_order,
            fb.bytes() == Seq::new((var_info.yres * fix_info.line_length) as nat, |i: int| 0u8),
    {
        let rows: usize = var_info.yres as usize;
        let stride: usize = fix_info.line_length as usize;
        assert(rows * stride == var_info.yres * fix_info.line_length) by (nonlinear_arith)
            requires
                rows == var_info.yres,
                stride == fix_info.line_length,
        ;
        let buffer: Vec<u8> = vec![0u8; rows * stride];
        assert(buffer@ =~= Seq::new(
            (var_info.yres * fix_info.line_length) as nat,
            |i: int| 0u8,
        ));
        Framebuffer { var_info, fix_info, byte_order, buffer }
    }

    /// Width of the display in pixels.
    pub fn width(&self) -> (w: u32)
        ensures
            w == self.var_info.xres,
    {
        self.var_info.xres
    }

    /// Height of the display in pixels.
    pub fn height(&self) -> (h: u32)
        ensures
            h == self.var_info.yres,
    {
        self.var_info.yres
    }

    /// Bits per pixel that the device reports.
    pub fn bpp(&self) -> (bits: u32)
        ensures
            bits == self.var_info.bits_per_pixel,
    {
        self.var_info.bits_per_pixel
    }

    /// Whether the device reports 16 bits per pixel.
    pub fn is_rgb565(&self) -> (yes: bool)
        ensures
            yes == (self.var_info.bits_per_pixel == 16),
    {
        self.var_info.bits_per_pixel == 16
    }

    /// Length of one row in bytes.
    pub fn line_length(&self) -> (stride: u32)
        ensures
            stride == self.fix_info.line_length,
    {
        self.fix_info.line_length
    }

    /// Whether the buffer holds exactly the rows that the geometry
    /// describes and each row is long enough for its 16-bit pixels, which
    /// is what pixel access asks for.
    pub fn is_ready(&self) -> (ok: bool)
        ensures
            ok == self.ready(),
    {
        let count: usize = self.buffer.len();
        assert(self.var_info.yres * self.fix_info.line_length <= 0xFFFF_FFFF * 0xFFFF_FFFF)
            by (nonlinear_arith)
            requires
                0 <= self.var_info.yres <= 0xFFFF_FFFF,
                0 <= self.fix_info.line_length <= 0xFFFF_FFFF,
        ;
        let needed: u64 = (self.var_info.yres as u64) * (self.fix_info.line_length as u64);
        count as u64 == needed && self.is_addressable()
    }

    /// Whether a row is long enough for a 16-bit pixel in every column.
    pub fn is_addressable(&self) -> (yes: bool)
        ensures
            yes == self.addressable(),
    {
        self.var_info.xres as u64 * 2 <= self.fix_info.line_length as u64
    }

    /// Fills the buffer with `color` on a 16-bit display, two bytes at a
    /// time from the start of the buffer. On a display of another depth the
    /// buffer is left as it is.
    pub fn clear(&mut self, color: Rgb565)
        ensures
            final(self).var_info == old(self).var_info,
            final(self).fix_info == old(self).fix_info,
            final(self).byte_order == old(self).byte_order,
            old(self).wf() ==> final(self).wf(),
            old(self).var_info.bits_per_pixel == 16 ==> final(self).bytes() == filled_bytes(
                old(self).bytes(),
                color,
                old(self).byte_order,
            ),
            old(self).var_info.bits_per_pixel != 16 ==> final(self).bytes() == old(self).bytes(),
    {
        if self.is_rgb565() {
            let bytes = encode_u16(color, self.byte_order);
            let count: usize = self.buffer.len();
            let mut i: usize = 0;
            while i < count / 2
                invariant
                    i <= count / 2,
                    self.buffer@.len() == count,
                    count == old(self).buffer@.len(),
                    self.var_info == old(self).var_info,
                    self.fix_info == old(self).fix_info,
                    self.byte_order == old(self).byte_order,
                    bytes.0 == first_byte(color, self.byte_order),
                    bytes.1 == second_byte(color, self.byte_order),
                    forall|j: int| 0 <= j < 2 * i && j % 2 == 0 ==> self.buffer@[j] == bytes.0,
                    forall|j: int| 0 <= j < 2 * i && j % 2 == 1 ==> self.buffer@[j] == bytes.1,
                    forall|j: int| 2 * i <= j < count ==> self.buffer@[j] == old(self).buffer@[j],
                decreases count / 2 - i,
            {
                self.buffer[2 * i] = bytes.0;
                self.buffer[2 * i + 1] = bytes.1;
                i += 1;
            }
            assert(self.buffer@ =~= filled_bytes(old(self).buffer@, color, old(self).byte_order));
        }
    }

    /// Writes the pixel at `(x, y)` without looking at the display's size.
    /// The two bytes written must lie inside the buffer.
    pub fn set_pixel_unchecked(&mut self, x: u32, y: u32, color: Rgb565)
        requires
            old(self).offset_of(x as int, y as int) + 2 <= old(self).bytes().len(),
        ensures
            final(self).var_info == old(self).var_info,
            final(self).fix_info == old(self).fix_info,
            final(self).byte_order == old(self).byte_order,
            final(self).bytes() == old(self).bytes().update(
                old(self).offset_of(x as int, y as int),
                first_byte(color, old(self).byte_order),
            ).update(
                old(self).offset_of(x as int, y as int) + 1,
                second_byte(color, old(self).byte_order),
            ),
            old(self).wf() ==> final(self).wf(),
            old(self).ready() && old(self).contains(x as int, y as int) ==> final(self).pixel(
                x as int,
                y as int,
            ) == color,
            forall|u: int, v: int|
                old(self).ready() && old(self).contains(x as int, y as int) && old(self).contains(
                    u,
                    v,
                ) && (u != x || v != y) ==> #[trigger] final(self).pixel(u, v) == old(self).pixel(
                    u,
                    v,
                ),
            forall|v: int, column: int|
                old(self).ready() && old(self).contains(x as int, y as int) && old(self).is_padding(v, column) ==> #[trigger] final(self).byte_at(v, column) == old(self).byte_at(v, column),
    {
        let row: usize = y as usize;
        let stride: usize = self.fix_info.line_length as usize;
        let count: usize = self.buffer.len();
        proof {
            assert(row * stride == y * self.fix_info.line_length) by (nonlinear_arith)
                requires
                    row == y,
                    stride == self.fix_info.line_length,
            ;
            assert(row * stride >= 0) by (nonlinear_arith)
                requires
                    row >= 0,
                    stride >= 0,
            ;
        }
        let offset: usize = row * stride + 2 * (x as usize);
        let bytes = encode_u16(color, self.byte_order);
        self.buffer[offset] = bytes.0;
        self.buffer[offset + 1] = bytes.1;
        proof {
            lemma_word_roundtrip(color, self.byte_order);
            if old(self).ready() && old(self).contains(x as int, y as int) {
                let xres = self.var_info.xres as int;
                let yres = self.var_info.yres as int;
                assert forall|u: int, v: int|
                    old(self).contains(u, v) && (u != x || v != y) implies (#[trigger] self.pixel(
                    u,
                    v,
                )) == old(self).pixel(u, v) by {
                    lemma_cell_in_buffer(u, v, xres, yres, self.stride());
                    lemma_cells_disjoint(u, v, x as int, y as int, xres, self.stride());
                }
                assert forall|v: int, column: int| old(self).is_padding(v, column) implies (
                #[trigger] self.byte_at(v, column)) == old(self).byte_at(v, column) by {
                    lemma_row_in_buffer(v, column, yres, self.stride());
                    lemma_padding_outside_cell(v, column, x as int, y as int, xres, self.stride());
                }
            }
        }
    }

    /// Writes the pixel at `(x, y)`. A position off the display is ignored.
    pub fn set_pixel(&mut self, x: u32, y: u32, color: Rgb565)
        requires
            old(self).ready(),
        ensures
            final(self).ready(),
            final(self).var_info == old(self).var_info,
            final(self).fix_info == old(self).fix_info,
            final(self).byte_order == old(self).byte_order,
            !old(self).contains(x as int, y as int) ==> final(self).bytes() == old(self).bytes(),
            old(self).contains(x as int, y as int) ==> final(self).bytes() == old(self).bytes().update(
                old(self).offset_of(x as int, y as int),
                first_byte(color, old(self).byte_order),
            ).update(
                old(self).offset_of(x as int, y as int) + 1,
                second_byte(color, old(self).byte_order),
            ),
            old(self).contains(x as int, y as int) ==> final(self).pixel(x as int, y as int)
                == color,
            forall|u: int, v: int|
                old(self).contains(u, v) && (u != x || v != y) ==> #[trigger] final(self).pixel(
                    u,
                    v,
                ) == old(self).pixel(u, v),
            forall|v: int, column: int|
                old(self).is_padding(v, column) ==> #[trigger] final(self).byte_at(v, column)
                    == old(self).byte_at(v, column),
    {
        if x < self.var_info.xres && y < self.var_info.yres {
            proof {
                lemma_cell_in_buffer(
                    x as int,
                    y as int,
                    self.var_info.xres as int,
                    self.var_info.yres as int,
                    self.stride(),
                );
            }
            self.set_pixel_unchecked(x, y, color);
        }
    }

    /// Reads the pixel at `(x, y)`, which must be a pixel of the display.
    pub fn get_pixel(&self, x: u32, y: u32) -> (color: Rgb565)
        requires
            self.ready(),
            self.contains(x as int, y as int),
        ensures
            color == self.pixel(x as int, y as int),
    {
        let row: usize = y as usize;
        let stride: usize = self.fix_info.line_length as usize;
        let count: usize = self.buffer.len();
        proof {
            lemma_cell_in_buffer(
                x as int,
                y as int,
                self.var_info.xres as int,
                self.var_info.yres as int,
                self.stride(),
            );
            assert(row * stride == y * self.fix_info.line_length) by (nonlinear_arith)
                requires
                    row == y,
                    stride == self.fix_info.line_length,
            ;
        }
        let offset: usize = row * stride + 2 * (x as usize);
        decode_u16(self.buffer[offset], self.buffer[offset + 1], self.byte_order)
    }

    /// The bytes to write to the device.
    pub fn buffer(&self) -> (bytes: &[u8])
        ensures
            bytes@ == self.bytes(),
    {
        self.buffer.as_slice()
    }

    /// The buffer itself, for writing bytes in place. Its length cannot
    /// change through the slice, and the geometry is not touched.
    pub fn buffer_mut(&mut self) -> (bytes: &mut [u8])
        ensures
            bytes@ == old(self).bytes(),
            final(self).bytes() == final(bytes)@,
            final(self).var_info == old(self).var_info,
            final(self).fix_info == old(self).fix_info,
            final(self).byte_order == old(self).byte_order,
    {
        self.buffer.as_mut_slice()
    }
}

/// After a fill, every pixel of a display whose rows start at even offsets
/// reads as the fill colour.
pub proof fn lemma_fill_sets_every_pixel(before: Framebuffer, after: Framebuffer, color: Rgb565, x: int, y: int)
    requires
        before.wf(),
        before.addressable(),
        before.stride() % 2 == 0,
        before.contains(x, y),
        after.var_info == before.var_info,
        after.fix_info == before.fix_info,
        after.byte_order == before.byte_order,
        after.bytes() == filled_bytes(before.bytes(), color, before.byte_order),
    ensures
        after.pixel(x, y) == color,
{
    let stride = before.stride();
    let offset = before.offset_of(x, y);
    lemma_cell_in_buffer(x, y, before.var_info.xres as int, before.var_info.yres as int, stride);
    let half = stride / 2;
    assert(y * stride == 2 * (y * half)) by (nonlinear_arith)
        requires
            stride == 2 * half,
    ;
    assert(offset % 2 == 0);
    assert(2 * (offset / 2) == offset);
    assert((offset + 1) / 2 == offset / 2);
    lemma_word_roundtrip(color, before.byte_order);
}

/// A 16-bit value is read back from the two bytes it was stored as.
pub proof fn lemma_word_roundtrip(value: u16, order: ByteOrder)
    ensures
        word_of(first_byte(value, order), second_byte(value, order), order) == value,
{
}

} // verus!
