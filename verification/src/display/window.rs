//! The windowed display used on a desktop: a buffer of packed RGB888 pixels
//! that a windowing toolkit shows unscaled and unrotated.

use crate::display::color::{expand_565, rgb565_to_u32, Rgb565};
use crate::display::surface::{lemma_index_in_range, lemma_index_injective, RenderBuffer};
use crate::{DISPLAY_HEIGHT, DISPLAY_WIDTH};
use vstd::prelude::*;

verus! {

/// What a windowed display is: its size and its pixels, row by row, each a
/// packed `0x00RRGGBB` value.
pub struct WindowModel {
    pub width: int,
    pub height: int,
    pub pixels: Seq<u32>,
}

impl WindowModel {
    /// Whether `(x, y)` is a pixel of the window.
    pub open spec fn contains(self, x: int, y: int) -> bool {
        0 <= x < self.width && 0 <= y < self.height
    }

    /// The pixel at `(x, y)`.
    pub open spec fn pixel(self, x: int, y: int) -> u32 {
        self.pixels[y * self.width + x]
    }
}

/// The pixel buffer of a development window.
pub struct WindowDisplay {
    buffer: Vec<u32>,
    width: u32,
    height: u32,
}

impl View for WindowDisplay {
    type V = WindowModel;

    closed spec fn view(&self) -> WindowModel {
        WindowModel {
            width: self.width as int,
            height: self.height as int,
            pixels: self.buffer@,
        }
    }
}

impl WindowDisplay {
    #[verifier::type_invariant]
    spec fn complete(self) -> bool {
        self.buffer@.len() == self.width * self.height
    }

    /// A black window buffer of the given size.
    pub fn new(width: u32, height: u32) -> (display: WindowDisplay)
        requires
            width * height <= u32::MAX,
        ensures
            display@.width == width,
            display@.height == height,
            display@.pixels == Seq::new((width * height) as nat, |i: int| 0u32),
    {
        assert(width * height == (width as usize) * (height as usize));
        let count: usize = (width as usize) * (height as usize);
        let buffer: Vec<u32> = vec![0u32; count];
        assert(buffer@ =~= Seq::new((width * height) as nat, |i: int| 0u32));
        WindowDisplay { buffer, width, height }
    }

    /// A black window buffer of the logical display resolution.
    pub fn default_resolution() -> (display: WindowDisplay)
        ensures
            display@.width == DISPLAY_WIDTH,
            display@.height == DISPLAY_HEIGHT,
            display@.pixels == Seq::new((DISPLAY_WIDTH * DISPLAY_HEIGHT) as nat, |i: int| 0u32),
    {
        WindowDisplay::new(DISPLAY_WIDTH, DISPLAY_HEIGHT)
    }

    /// Width of the window in pixels.
    pub fn width(&self) -> (w: u32)
        ensures
            w == self@.width,
    {
        self.width
    }

    /// Height of the window in pixels.
    pub fn height(&self) -> (h: u32)
        ensures
            h == self@.height,
    {
        self.height
    }

    /// The pixels to hand to the window, row by row: one for each position.
    pub fn buffer(&self) -> (pixels: &[u32])
        ensures
            pixels@ == self@.pixels,
            pixels@.len() == self@.width * self@.height,
    {
        proof {
            use_type_invariant(self);
        }
        self.buffer.as_slice()
    }

    /// Sets every pixel to the widened form of `color`.
    pub fn clear(&mut self, color: Rgb565)
        ensures
            final(self)@.width == old(self)@.width,
            final(self)@.height == old(self)@.height,
            final(self)@.pixels == Seq::new(
                old(self)@.pixels.len(),
                |i: int| expand_565(color),
            ),
    {
        let wide = rgb565_to_u32(color);
        let count: usize = self.buffer.len();
        let mut i: usize = 0;
        proof {
            use_type_invariant(&*self);
        }
        while i < count
            invariant
                i <= count,
                self.buffer@.len() == count,
                self.width == old(self).width,
                self.height == old(self).height,
                count == self.width * self.height,
                wide == expand_565(color),
                forall|j: int| 0 <= j < i ==> self.buffer@[j] == wide,
            decreases count - i,
        {
            self.buffer[i] = wide;
            i += 1;
        }
        assert(self.buffer@ =~= Seq::new(old(self)@.pixels.len(), |i: int| expand_565(color)));
    }

    /// Sets the pixel at `(x, y)` to the widened form of `color`. A position
    /// outside the window is ignored.
    pub fn set_pixel(&mut self, x: u32, y: u32, color: Rgb565)
        ensures
            final(self)@.width == old(self)@.width,
            final(self)@.height == old(self)@.height,
            final(self)@.pixels.len() == old(self)@.pixels.len(),
            old(self)@.contains(x as int, y as int) ==> final(self)@.pixels == old(self)@.pixels.update(y * old(self)@.width + x, expand_565(color)),
            !old(self)@.contains(x as int, y as int) ==> final(self)@.pixels == old(self)@.pixels,
    {
        if x < self.width && y < self.height {
            let row: usize = y as usize;
            let stride: usize = self.width as usize;
            let count: usize = self.buffer.len();
            proof {
                use_type_invariant(&*self);
                lemma_index_in_range(x as int, y as int, self.width as int, self.height as int);
                assert(row * stride == y * self.width) by (nonlinear_arith)
                    requires
                        row == y,
                        stride == self.width,
                ;
                assert(row * stride + x < count);
            }
            self.buffer[row * stride + (x as usize)] = rgb565_to_u32(color);
        }
    }
}

/// The smaller of two lengths.
pub open spec fn shorter(a: int, b: int) -> int {
    if a <= b {
        a
    } else {
        b
    }
}

impl RenderBuffer {
    /// Copies the surface to the window, pixel for pixel and without
    /// scaling: the part that both have is copied, each pixel widened, and
    /// the rest of the window is left as it is.
    pub fn blit(&self, display: &mut WindowDisplay)
        requires
            self.wf(),
        ensures
            final(display)@.width == old(display)@.width,
            final(display)@.height == old(display)@.height,
            final(display)@.pixels.len() == old(display)@.pixels.len(),
            forall|x: int, y: int|
                old(display)@.contains(x, y) ==> #[trigger] final(display)@.pixel(x, y) == (
                if self.contains(x, y) {
                    expand_565(self.pixel(x, y))
                } else {
                    old(display)@.pixel(x, y)
                }),
    {
        let columns: u32 = if self.width < display.width() {
            self.width
        } else {
            display.width()
        };
        let rows: u32 = if self.height < display.height() {
            self.height
        } else {
            display.height()
        };
        let ghost before = display@;
        let count: usize = display.buffer().len();
        let mut y: u32 = 0;
        while y < rows
            invariant
                y <= rows,
                self.wf(),
                columns == shorter(self.width as int, before.width),
                rows == shorter(self.height as int, before.height),
                display@.width == before.width,
                display@.height == before.height,
                display@.pixels.len() == before.pixels.len(),
                before.pixels.len() == before.width * before.height,
                forall|u: int, v: int|
                    before.contains(u, v) ==> #[trigger] display@.pixel(u, v) == (if u < columns
                        && v < y {
                        expand_565(self.pixel(u, v))
                    } else {
                        before.pixel(u, v)
                    }),
            decreases rows - y,
        {
            let mut x: u32 = 0;
            while x < columns
                invariant
                    x <= columns,
                    y < rows,
                    self.wf(),
                    columns == shorter(self.width as int, before.width),
                    rows == shorter(self.height as int, before.height),
                    display@.width == before.width,
                    display@.height == before.height,
                    display@.pixels.len() == before.pixels.len(),
                    before.pixels.len() == before.width * before.height,
                    forall|u: int, v: int|
                        before.contains(u, v) ==> #[trigger] display@.pixel(u, v) == (if u
                            < columns && (v < y || (v == y && u < x)) {
                            expand_565(self.pixel(u, v))
                        } else {
                            before.pixel(u, v)
                        }),
                decreases columns - x,
            {
                let color = self.get_pixel(x, y);
                let ghost prior = display@;
                display.set_pixel(x, y, color);
                proof {
                    assert forall|u: int, v: int| before.contains(u, v) implies (
                    #[trigger] display@.pixel(u, v)) == (if u < columns && (v < y || (v == y && u
                        < x + 1)) {
                        expand_565(self.pixel(u, v))
                    } else {
                        before.pixel(u, v)
                    }) by {
                        lemma_index_in_range(u, v, before.width, before.height);
                        lemma_index_in_range(x as int, y as int, before.width, before.height);
                        if v * before.width + u == y * before.width + x {
                            lemma_index_injective(u, v, x as int, y as int, before.width);
                        } else {
                            assert(display@.pixel(u, v) == prior.pixel(u, v));
                        }
                    }
                }
                x += 1;
            }
            y += 1;
        }
    }
}

} // verus!
