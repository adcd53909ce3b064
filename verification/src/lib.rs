//! Display pipeline and navigation engine for a small handheld pager.
//!
//! The crate has two halves. The display half owns the logical drawing
//! surface, the models of the physical outputs, the scaling and rotating
//! copy between them, and the rasterisers that turn drawing commands into
//! pixels. The navigation half owns the stack of screens, the scrolling
//! list screen, and the decoding of raw input records into actions.
//!
//! Every function is verified against the contract it carries, with one
//! boundary: the shapes of outlines, lines, triangles and glyphs come from
//! `embedded-graphics`, and what is taken on trust there is set out in
//! [`display::raster`]. Devices, windows and files are left to the caller,
//! who hands over the bytes read and takes the bytes to write.

pub mod display;
pub mod input;
pub mod menus;
pub mod pager;
pub mod platform;
pub mod ui;

use vstd::prelude::*;

verus! {

/// Width of the logical drawing surface, in pixels.
pub const DISPLAY_WIDTH: u32 = 480;

/// Height of the logical drawing surface, in pixels.
pub const DISPLAY_HEIGHT: u32 = 222;

} // verus!
