//! Logical surface, physical outputs, the copy between them, and the
//! rasterisers of drawing commands.

pub mod blit;
pub mod color;
pub mod framebuffer;
pub mod raster;
pub mod surface;
pub mod window;

pub use color::{argb_to_565, rgb565_to_u32, rgb_to_565, ByteOrder, Rgb565};
pub use framebuffer::{FbBitfield, FbFixScreeninfo, FbVarScreeninfo, Framebuffer};
pub use surface::{Pixel, RenderBuffer};
pub use window::{WindowDisplay, WindowModel};

use framebuffer::filled_bytes;
use vstd::prelude::*;

verus! {

/// A display of RGB565 pixels that can be cleared and written pixel by
/// pixel, whatever stands behind it.
pub trait Display {
    /// The display is in a state in which its pixels can be written. A
    /// display that says nothing else is always in such a state.
    open spec fn usable(&self) -> bool {
        true
    }

    /// Width in pixels.
    fn width(&self) -> u32;

    /// Height in pixels.
    fn height(&self) -> u32;

    /// Fills the display with `color`, as far as the display can.
    fn clear(&mut self, color: Rgb565)
        requires
            old(self).usable(),
        ensures
            final(self).usable(),
    ;

    /// Writes one pixel. A position off the display is ignored.
    fn set_pixel(&mut self, x: u32, y: u32, color: Rgb565)
        requires
            old(self).usable(),
        ensures
            final(self).usable(),
    ;
}

impl Display for Framebuffer {
    /// A framebuffer can be written when it is ready for 16-bit pixels.
    open spec fn usable(&self) -> bool {
        self.ready()
    }

    fn width(&self) -> (w: u32)
        ensures
            w == self.var_info.xres,
    {
        self.width()
    }

    fn height(&self) -> (h: u32)
        ensures
            h == self.var_info.yres,
    {
        self.height()
    }

    /// The same as [`Framebuffer::clear`].
    fn clear(&mut self, color: Rgb565)
        ensures
            final(self).var_info == old(self).var_info,
            final(self).fix_info == old(self).fix_info,
            final(self).byte_order == old(self).byte_order,
            old(self).var_info.bits_per_pixel == 16 ==> final(self).bytes() == filled_bytes(
                old(self).bytes(),
                color,
                old(self).byte_order,
            ),
            old(self).var_info.bits_per_pixel != 16 ==> final(self).bytes() == old(self).bytes(),
    {
        Framebuffer::clear(self, color);
    }

    /// The same as [`Framebuffer::set_pixel`].
    fn set_pixel(&mut self, x: u32, y: u32, color: Rgb565)
        ensures
            final(self).var_info == old(self).var_info,
            final(self).fix_info == old(self).fix_info,
            final(self).byte_order == old(self).byte_order,
            !old(self).contains(x as int, y as int) ==> final(self).bytes() == old(self).bytes(),
            old(self).contains(x as int, y as int) ==> final(self).pixel(x as int, y as int)
                == color,
            forall|u: int, v: int|
                old(self).contains(u, v) && (u != x || v != y) ==> #[trigger] final(self).pixel(
                    u,
                    v,
                ) == old(self).pixel(u, v),
            forall|v: int, column: int|
                old(self).is_padding(v, column) ==> #[trigger] final(self).byte_at(v, column)
                    == old(self).byte_at(v, column),
    {
        Framebuffer::set_pixel(self, x, y, color);
    }
}

} // verus!
