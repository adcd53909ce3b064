//! Drawing commands. A screen lays itself out as a list of commands, which
//! says what is to be drawn and in which order; the surface carries the
//! commands out.

use vstd::prelude::*;

verus! {

/// A fixed-width font.
#[derive(Debug, Clone, Copy, PartialEq, Eq, Structural)]
pub enum Font {
    /// Ten by twenty pixels, for titles and list rows.
    Mono10x20,
    /// Nine by fifteen pixels, bold, for the status bar.
    Mono9x15Bold,
}

/// One thing to draw. Coordinates are in surface pixels and may lie off the
/// surface; colours are packed `0x00RRGGBB`. Later commands draw over
/// earlier ones.
#[derive(Debug, Clone, Copy, PartialEq, Eq)]
pub enum DrawCommand {
    /// A filled rectangle with its top left corner at `(x, y)`.
    FillRect { x: i32, y: i32, width: u32, height: u32, color: u32 },
    /// The outline of a rectangle, one pixel wide, inside its bounds.
    StrokeRect { x: i32, y: i32, width: u32, height: u32, color: u32 },
    /// A line one pixel wide from `(x0, y0)` to `(x1, y1)`, ends included.
    Line { x0: i32, y0: i32, x1: i32, y1: i32, color: u32 },
    /// A filled triangle.
    FillTriangle { x0: i32, y0: i32, x1: i32, y1: i32, x2: i32, y2: i32, color: u32 },
    /// A line of text whose baseline starts at `(x, y)`.
    Text { text: &'static str, x: i32, y: i32, font: Font, color: u32 },
}

} // verus!
