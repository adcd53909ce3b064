//! The compositor: the copy of the logical surface onto a physical display
//! of another size and orientation. Scaling is nearest neighbour with
//! truncating division, separately on each axis; rotation is by quarter
//! turns.

use crate::display::framebuffer::{lemma_cell_in_buffer, Framebuffer};
use crate::display::surface::RenderBuffer;
use vstd::prelude::*;

verus! {

/// No rotation.
pub const ROTATE_NONE: u8 = 0;

/// A quarter turn clockwise: the top of the surface is the right edge of the
/// display.
pub const ROTATE_CW: u8 = 1;

/// A half turn.
pub const ROTATE_HALF: u8 = 2;

/// A quarter turn counter-clockwise: the top of the surface is the left edge
/// of the display.
pub const ROTATE_CCW: u8 = 3;

/// Column of the surface pixel shown at `(px, py)` of a `p` by `q` display,
/// for a `w` by `h` surface turned by `rotation` quarter turns clockwise.
pub open spec fn source_x(rotation: u8, w: int, h: int, p: int, q: int, px: int, py: int) -> int {
    if rotation == ROTATE_NONE {
        px * w / p
    } else if rotation == ROTATE_CW {
        py * w / q
    } else if rotation == ROTATE_HALF {
        (p - 1 - px) * w / p
    } else {
        (q - 1 - py) * w / q
    }
}

/// Row of the surface pixel shown at `(px, py)` of a `p` by `q` display, for
/// a `w` by `h` surface turned by `rotation` quarter turns clockwise.
pub open spec fn source_y(rotation: u8, w: int, h: int, p: int, q: int, px: int, py: int) -> int {
    if rotation == ROTATE_NONE {
        py * h / q
    } else if rotation == ROTATE_CW {
        (p - 1 - px) * h / p
    } else if rotation == ROTATE_HALF {
        (q - 1 - py) * h / q
    } else {
        px * h / p
    }
}

/// Scaling a position of one axis to another axis stays on that axis.
pub proof fn lemma_scaled_in_range(position: int, from: int, to: int)
    requires
        0 <= position < from,
        0 < to,
    ensures
        0 <= position * to / from < to,
{
    assert(0 <= position * to < from * to) by (nonlinear_arith)
        requires
            0 <= position < from,
            0 < to,
    ;
    vstd::arithmetic::div_mod::lemma_multiply_divide_lt(position * to, from, to);
    vstd::arithmetic::div_mod::lemma_div_pos_is_pos(position * to, from);
}

/// The source of every display pixel is a pixel of the surface.
pub proof fn lemma_source_on_surface(
    rotation: u8,
    w: int,
    h: int,
    p: int,
    q: int,
    px: int,
    py: int,
)
    requires
        0 < w,
        0 < h,
        0 <= px < p,
        0 <= py < q,
    ensures
        0 <= source_x(rotation, w, h, p, q, px, py) < w,
        0 <= source_y(rotation, w, h, p, q, px, py) < h,
{
    lemma_scaled_in_range(px, p, w);
    lemma_scaled_in_range(px, p, h);
    lemma_scaled_in_range(py, q, w);
    lemma_scaled_in_range(py, q, h);
    lemma_scaled_in_range(p - 1 - px, p, w);
    lemma_scaled_in_range(p - 1 - px, p, h);
    lemma_scaled_in_range(q - 1 - py, q, w);
    lemma_scaled_in_range(q - 1 - py, q, h);
}

/// Without rotation, onto a display of the surface's own size, every pixel
/// is its own source: the copy is the identity.
pub proof fn lemma_identity_blit(w: int, h: int, x: int, y: int)
    requires
        0 <= x < w,
        0 <= y < h,
    ensures
        source_x(ROTATE_NONE, w, h, w, h, x, y) == x,
        source_y(ROTATE_NONE, w, h, w, h, x, y) == y,
{
    vstd::arithmetic::div_mod::lemma_div_multiples_vanish(x, w);
    vstd::arithmetic::div_mod::lemma_div_multiples_vanish(y, h);
    assert(x * w == w * x) by (nonlinear_arith);
    assert(y * h == h * y) by (nonlinear_arith);
}

/// `position * to / from`, for a position on an axis of length `from`.
fn scale(position: u32, from: u32, to: u32) -> (scaled: u32)
    requires
        position < from,
    ensures
        scaled == position * to / (from as int),
        0 < to ==> scaled < to,
{
    proof {
        assert(0 <= position * to <= 0xFFFF_FFFF * 0xFFFF_FFFF) by (nonlinear_arith)
            requires
                0 <= position <= 0xFFFF_FFFF,
                0 <= to <= 0xFFFF_FFFF,
        ;
        if to > 0 {
            lemma_scaled_in_range(position as int, from as int, to as int);
        } else {
            assert(position * to == 0) by (nonlinear_arith)
                requires
                    to == 0,
            ;
        }
    }
    let product: u64 = (position as u64) * (to as u64);
    (product / (from as u64)) as u32
}

impl RenderBuffer {
    /// Without rotation, onto a display of the surface's own size, every
    /// pixel of the display shows the surface pixel at the same position.
    pub proof fn lemma_identity_copy(&self, x: int, y: int)
        requires
            self.contains(x, y),
        ensures
            self.source_pixel(ROTATE_NONE, self.width as int, self.height as int, x, y)
                == self.pixel(x, y),
    {
        lemma_identity_blit(self.width as int, self.height as int, x, y);
    }

    /// Whether a copy with this rotation moves any pixel: the rotation is
    /// one of the four and the surface is not empty.
    pub open spec fn copies(&self, rotation: u8) -> bool {
        rotation < 4 && self.width > 0 && self.height > 0
    }

    /// The surface pixel that a copy with `rotation` shows at `(px, py)` of
    /// a `p` by `q` display.
    pub open spec fn source_pixel(&self, rotation: u8, p: int, q: int, px: int, py: int) -> u16 {
        self.pixel(
            source_x(rotation, self.width as int, self.height as int, p, q, px, py),
            source_y(rotation, self.width as int, self.height as int, p, q, px, py),
        )
    }

    /// Reads the surface pixel that belongs at `(px, py)` of a `p` by `q`
    /// display.
    pub fn sample(&self, rotation: u8, p: u32, q: u32, px: u32, py: u32) -> (color: u16)
        requires
            self.wf(),
            self.copies(rotation),
            px < p,
            py < q,
        ensures
            color == self.source_pixel(rotation, p as int, q as int, px as int, py as int),
    {
        proof {
            lemma_source_on_surface(
                rotation,
                self.width as int,
                self.height as int,
                p as int,
                q as int,
                px as int,
                py as int,
            );
        }
        let (sx, sy) = if rotation == ROTATE_NONE {
            (scale(px, p, self.width), scale(py, q, self.height))
        } else if rotation == ROTATE_CW {
            (scale(py, q, self.width), scale(p - 1 - px, p, self.height))
        } else if rotation == ROTATE_HALF {
            (scale(p - 1 - px, p, self.width), scale(q - 1 - py, q, self.height))
        } else {
            (scale(q - 1 - py, q, self.width), scale(px, p, self.height))
        };
        self.get_pixel(sx, sy)
    }

    /// Copies the surface onto the display, scaled to the display's size and
    /// turned by `rotation` quarter turns clockwise (see the `ROTATE_`
    /// constants). Every pixel of the display is written
    /// with the surface pixel that [`source_x`] and [`source_y`] name; the
    /// padding bytes of each row are not touched. A rotation above three, or
    /// an empty surface, leaves the display as it is.
    pub fn blit_scaled(&self, fb: &mut Framebuffer, rotation: u8)
        requires
            self.wf(),
            old(fb).ready(),
        ensures
            final(fb).ready(),
            final(fb).var_info == old(fb).var_info,
            final(fb).fix_info == old(fb).fix_info,
            final(fb).byte_order == old(fb).byte_order,
            !self.copies(rotation) ==> final(fb).bytes() == old(fb).bytes(),
            forall|px: int, py: int|
                self.copies(rotation) && old(fb).contains(px, py) ==> #[trigger] final(fb).pixel(
                    px,
                    py,
                ) == self.source_pixel(
                    rotation,
                    old(fb).var_info.xres as int,
                    old(fb).var_info.yres as int,
                    px,
                    py,
                ),
            forall|y: int, column: int|
                old(fb).is_padding(y, column) ==> #[trigger] final(fb).byte_at(y, column) == old(fb).byte_at(y, column),
    {
        if rotation >= 4 || self.width == 0 || self.height == 0 {
            return ;
        }
        let p: u32 = fb.width();
        let q: u32 = fb.height();
        let mut py: u32 = 0;
        while py < q
            invariant
                py <= q,
                self.wf(),
                self.copies(rotation),
                fb.ready(),
                fb.var_info == old(fb).var_info,
                fb.fix_info == old(fb).fix_info,
                fb.byte_order == old(fb).byte_order,
                p == fb.var_info.xres,
                q == fb.var_info.yres,
                forall|x: int, y: int|
                    0 <= x < p && 0 <= y < py ==> #[trigger] fb.pixel(x, y) == self.source_pixel(
                        rotation,
                        p as int,
                        q as int,
                        x,
                        y,
                    ),
                forall|y: int, column: int|
                    old(fb).is_padding(y, column) ==> #[trigger] fb.byte_at(y, column) == old(fb).byte_at(y, column),
            decreases q - py,
        {
            let mut px: u32 = 0;
            while px < p
                invariant
                    px <= p,
                    py < q,
                    self.wf(),
                    self.copies(rotation),
                    fb.ready(),
                    fb.var_info == old(fb).var_info,
                    fb.fix_info == old(fb).fix_info,
                    fb.byte_order == old(fb).byte_order,
                    p == fb.var_info.xres,
                    q == fb.var_info.yres,
                    forall|x: int, y: int|
                        0 <= x < p && 0 <= y < py ==> #[trigger] fb.pixel(x, y)
                            == self.source_pixel(rotation, p as int, q as int, x, y),
                    forall|x: int|
                        0 <= x < px ==> #[trigger] fb.pixel(x, py as int) == self.source_pixel(
                            rotation,
                            p as int,
                            q as int,
                            x,
                            py as int,
                        ),
                    forall|y: int, column: int|
                        old(fb).is_padding(y, column) ==> #[trigger] fb.byte_at(y, column) == old(fb).byte_at(y, column),
                decreases p - px,
            {
                let color = self.sample(rotation, p, q, px, py);
                proof {
                    lemma_cell_in_buffer(
                        px as int,
                        py as int,
                        p as int,
                        q as int,
                        fb.stride(),
                    );
                }
                fb.set_pixel_unchecked(px, py, color);
                px += 1;
            }
            py += 1;
        }
    }
}

} // verus!
