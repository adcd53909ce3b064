//! The logical drawing surface: a fixed-size, row-major canvas of RGB565
//! pixels that every screen draws on.

use crate::display::color::Rgb565;
use crate::{DISPLAY_HEIGHT, DISPLAY_WIDTH};
use vstd::prelude::*;

verus! {

/// One pixel to draw: a position, which may lie outside the surface, and a
/// colour.
#[derive(Clone, Copy, Debug, PartialEq, Eq)]
pub struct Pixel {
    pub x: i32,
    pub y: i32,
    pub color: Rgb565,
}

/// A surface of `width` by `height` pixels, stored row by row.
pub struct RenderBuffer {
    pub width: u32,
    pub height: u32,
    pub pixels: Vec<Rgb565>,
}

/// The pixels of a `width` by `height` surface after `p` is drawn on it: the
/// pixel at `p`'s position takes its colour if the position is on the
/// surface, and nothing changes if it is not.
pub open spec fn plot(pixels: Seq<Rgb565>, width: int, height: int, p: Pixel) -> Seq<Rgb565> {
    if 0 <= p.x < width && 0 <= p.y < height {
        pixels.update(p.y * width + p.x, p.color)
    } else {
        pixels
    }
}

/// The pixels of a surface after every pixel of `ps` is drawn on it, first
/// to last, so that a later pixel covers an earlier one at the same position.
pub open spec fn plot_all(pixels: Seq<Rgb565>, width: int, height: int, ps: Seq<Pixel>) -> Seq<
    Rgb565,
>
    decreases ps.len(),
{
    if ps.len() == 0 {
        pixels
    } else {
        plot(plot_all(pixels, width, height, ps.drop_last()), width, height, ps.last())
    }
}

/// A position inside a `width` by `height` grid has a row-major index inside
/// the grid's storage.
pub proof fn lemma_index_in_range(x: int, y: int, width: int, height: int)
    requires
        0 <= x < width,
        0 <= y < height,
    ensures
        0 <= y * width + x < width * height,
{
    assert(y * width >= 0) by (nonlinear_arith)
        requires
            y >= 0,
            width >= 0,
    ;
    assert((y + 1) * width <= height * width) by (nonlinear_arith)
        requires
            y + 1 <= height,
            width >= 0,
    ;
    assert((y + 1) * width == y * width + width) by (nonlinear_arith);
    assert(height * width == width * height) by (nonlinear_arith);
}

/// Two positions of one grid with the same row-major index are the same
/// position.
pub proof fn lemma_index_injective(x1: int, y1: int, x2: int, y2: int, width: int)
    requires
        0 <= x1 < width,
        0 <= x2 < width,
        y1 * width + x1 == y2 * width + x2,
    ensures
        x1 == x2,
        y1 == y2,
{
    if y1 < y2 {
        assert((y1 + 1) * width <= y2 * width) by (nonlinear_arith)
            requires
                y1 + 1 <= y2,
                width >= 0,
        ;
        assert((y1 + 1) * width == y1 * width + width) by (nonlinear_arith);
    } else if y2 < y1 {
        assert((y2 + 1) * width <= y1 * width) by (nonlinear_arith)
            requires
                y2 + 1 <= y1,
                width >= 0,
        ;
        assert((y2 + 1) * width == y2 * width + width) by (nonlinear_arith);
    }
}

impl RenderBuffer {
    /// The storage holds exactly one pixel for each position.
    pub open spec fn wf(&self) -> bool {
        self.pixels@.len() == self.width * self.height
    }

    /// The pixels, row by row.
    pub open spec fn image(&self) -> Seq<Rgb565> {
        self.pixels@
    }

    /// Whether `(x, y)` is a position on the surface.
    pub open spec fn contains(&self, x: int, y: int) -> bool {
        0 <= x < self.width && 0 <= y < self.height
    }

    /// The pixel at `(x, y)`, for a position on the surface.
    pub open spec fn pixel(&self, x: int, y: int) -> Rgb565
        recommends
            self.contains(x, y),
    {
        self.pixels@[y * self.width + x]
    }

    /// Whether the storage holds exactly one pixel for each position, which
    /// is what every operation on the surface asks for.
    pub fn is_well_formed(&self) -> (ok: bool)
        ensures
            ok == self.wf(),
    {
        let count: usize = self.pixels.len();
        assert(self.width * self.height <= 0xFFFF_FFFF * 0xFFFF_FFFF) by (nonlinear_arith)
            requires
                0 <= self.width <= 0xFFFF_FFFF,
                0 <= self.height <= 0xFFFF_FFFF,
        ;
        let needed: u64 = (self.width as u64) * (self.height as u64);
        count as u64 == needed
    }

    /// A surface of the given size with every pixel zero, which is black.
    pub fn new(width: u32, height: u32) -> (buffer: RenderBuffer)
        requires
            width * height <= u32::MAX,
        ensures
            buffer.wf(),
            buffer.width == width,
            buffer.height == height,
            buffer.pixels@ == Seq::new((width * height) as nat, |i: int| 0u16),
    {
        assert(width * height == (width as usize) * (height as usize));
        let count: usize = (width as usize) * (height as usize);
        let pixels: Vec<Rgb565> = vec![0u16; count];
        assert(pixels@ =~= Seq::new((width * height) as nat, |i: int| 0u16));
        RenderBuffer { width, height, pixels }
    }

    /// A black surface of the logical display resolution.
    pub fn default_resolution() -> (buffer: RenderBuffer)
        ensures
            buffer.wf(),
            buffer.width == DISPLAY_WIDTH,
            buffer.height == DISPLAY_HEIGHT,
            buffer.pixels@ == Seq::new((DISPLAY_WIDTH * DISPLAY_HEIGHT) as nat, |i: int| 0u16),
    {
        RenderBuffer::new(DISPLAY_WIDTH, DISPLAY_HEIGHT)
    }

    /// Sets every pixel to `color`.
    pub fn clear(&mut self, color: Rgb565)
        ensures
            final(self).width == old(self).width,
            final(self).height == old(self).height,
            final(self).pixels@ == Seq::new(old(self).pixels@.len(), |i: int| color),
            old(self).wf() ==> final(self).wf(),
            forall|x: int, y: int|
                old(self).wf() && old(self).contains(x, y) ==> #[trigger] final(self).pixel(x, y)
                    == color,
    {
        let count: usize = self.pixels.len();
        let mut i: usize = 0;
        while i < count
            invariant
                i <= count,
                self.pixels@.len() == count,
                self.width == old(self).width,
                self.height == old(self).height,
                forall|j: int| 0 <= j < i ==> self.pixels@[j] == color,
            decreases count - i,
        {
            self.pixels[i] = color;
            i += 1;
        }
        assert(self.pixels@ =~= Seq::new(old(self).pixels@.len(), |i: int| color));
        assert forall|x: int, y: int| old(self).wf() && old(self).contains(x, y) implies (
        #[trigger] self.pixel(x, y)) == color by {
            lemma_index_in_range(x, y, self.width as int, self.height as int);
        }
    }

    /// Sets the pixel at `(x, y)` to `color`. A position off the surface is
    /// ignored: the surface is left exactly as it was.
    pub fn set_pixel(&mut self, x: u32, y: u32, color: Rgb565)
        requires
            old(self).wf(),
        ensures
            final(self).wf(),
            final(self).width == old(self).width,
            final(self).height == old(self).height,
            old(self).contains(x as int, y as int) ==> final(self).pixels@ == old(self).pixels@.update(y * old(self).width + x, color),
            !old(self).contains(x as int, y as int) ==> final(self).pixels@ == old(self).pixels@,
    {
        if x < self.width && y < self.height {
            let index: usize = self.index_of(x, y);
            self.pixels[index] = color;
        }
    }

    /// The pixel at `(x, y)`, which must be a position on the surface.
    pub fn get_pixel(&self, x: u32, y: u32) -> (color: Rgb565)
        requires
            self.wf(),
            self.contains(x as int, y as int),
        ensures
            color == self.pixel(x as int, y as int),
    {
        let index: usize = self.index_of(x, y);
        self.pixels[index]
    }

    /// The place in the storage of the pixel at `(x, y)`.
    fn index_of(&self, x: u32, y: u32) -> (index: usize)
        requires
            self.wf(),
            self.contains(x as int, y as int),
        ensures
            index == y * self.width + x,
            index < self.pixels@.len(),
    {
        let row: usize = y as usize;
        let stride: usize = self.width as usize;
        let count: usize = self.pixels.len();
        proof {
            lemma_index_in_range(x as int, y as int, self.width as int, self.height as int);
            assert(row * stride == y * self.width) by (nonlinear_arith)
                requires
                    row == y,
                    stride == self.width,
            ;
            assert(row * stride + x < count);
        }
        row * stride + (x as usize)
    }

    /// The pixels, row by row.
    pub fn pixels_raw(&self) -> (raw: &[Rgb565])
        ensures
            raw@ == self.pixels@,
    {
        self.pixels.as_slice()
    }

    /// Draws one pixel given by signed coordinates. A position off the
    /// surface, negative coordinates included, is ignored.
    pub fn draw_pixel(&mut self, p: Pixel)
        requires
            old(self).wf(),
        ensures
            final(self).wf(),
            final(self).width == old(self).width,
            final(self).height == old(self).height,
            final(self).pixels@ == plot(
                old(self).pixels@,
                old(self).width as int,
                old(self).height as int,
                p,
            ),
    {
        if p.x >= 0 && p.y >= 0 && (p.x as u32) < self.width && (p.y as u32) < self.height {
            self.set_pixel(p.x as u32, p.y as u32, p.color);
        }
    }

    /// Draws the pixels of `pixels` in order. Those off the surface are
    /// dropped one by one; the rest are drawn.
    pub fn draw_iter(&mut self, pixels: &Vec<Pixel>)
        requires
            old(self).wf(),
        ensures
            final(self).wf(),
            final(self).width == old(self).width,
            final(self).height == old(self).height,
            final(self).pixels@ == plot_all(
                old(self).pixels@,
                old(self).width as int,
                old(self).height as int,
                pixels@,
            ),
    {
        let mut i: usize = 0;
        while i < pixels.len()
            invariant
                i <= pixels.len(),
                self.wf(),
                self.width == old(self).width,
                self.height == old(self).height,
                self.pixels@ == plot_all(
                    old(self).pixels@,
                    old(self).width as int,
                    old(self).height as int,
                    pixels@.subrange(0, i as int),
                ),
            decreases pixels.len() - i,
        {
            proof {
                let done = pixels@.subrange(0, i as int);
                let next = pixels@.subrange(0, i + 1);
                assert(next.drop_last() =~= done);
                assert(next.last() == pixels@[i as int]);
            }
            self.draw_pixel(pixels[i]);
            i += 1;
        }
        assert(pixels@.subrange(0, i as int) =~= pixels@);
    }
}

/// After a surface is cleared, every position on it reads as the colour it
/// was cleared to.
pub proof fn lemma_clear_then_get(before: RenderBuffer, after: RenderBuffer, color: Rgb565, x: int, y: int)
    requires
        before.wf(),
        before.contains(x, y),
        after.width == before.width,
        after.height == before.height,
        after.pixels@ == Seq::new(before.pixels@.len(), |i: int| color),
    ensures
        after.pixel(x, y) == color,
{
    lemma_index_in_range(x, y, before.width as int, before.height as int);
}

/// Setting a pixel at a position off the surface changes nothing.
pub proof fn lemma_plot_outside(pixels: Seq<Rgb565>, width: int, height: int, p: Pixel)
    requires
        !(0 <= p.x < width && 0 <= p.y < height),
    ensures
        plot(pixels, width, height, p) == pixels,
{
}

} // verus!
