//! Rasterisers: how a drawing command becomes pixels of the surface.
//!
//! A filled rectangle is painted here, position by position. Outlines,
//! lines, triangles and text are rasterised by `embedded-graphics`: the
//! shape is drawn on a tracer, a target that keeps the positions drawn on it
//! in order, and the positions are then painted here in the command's
//! colour. What the tracer reports is taken on trust and has a name in the
//! contracts; everything that happens to those positions is verified.

use crate::display::color::{argb_to_565, blue_888, green_888, pack_565, red_888, Rgb565};
use crate::display::surface::{lemma_index_in_range, lemma_index_injective, plot_all, Pixel,
    RenderBuffer};
use crate::ui::draw::{DrawCommand, Font};
use embedded_graphics::draw_target::DrawTargetExt;
use embedded_graphics::geometry::Dimensions;
use embedded_graphics::mono_font::ascii::{FONT_10X20, FONT_9X15_BOLD};
use embedded_graphics::mono_font::MonoTextStyle;
use embedded_graphics::pixelcolor::BinaryColor;
use embedded_graphics::prelude::{Drawable, Point, Primitive};
use embedded_graphics::primitives::{Line, PrimitiveStyle, Rectangle, Triangle};
use embedded_graphics::text::Text;
use embedded_graphics_core::draw_target::DrawTarget;
use embedded_graphics_core::geometry::{OriginDimensions, Size};
use vstd::prelude::*;

verus! {

/// Largest coordinate, and largest side of an outline, that is handed to a
/// rasteriser. The limits of this module keep the rasterisers' own
/// arithmetic, which is in 32 bits and in places of the fourth degree in
/// the lengths of a triangle's sides, in range.
pub const DRAW_LIMIT: i32 = 2048;

/// Largest width and largest height of a triangle that is handed to the
/// triangle rasteriser.
pub const TRIANGLE_SPAN: i32 = 128;

/// Longest text, in bytes, that is handed to the text rasteriser.
pub const TEXT_LIMIT: usize = 1024;

/// Largest width and height to which a rasteriser clips. No command within
/// the other limits draws anything further out.
pub const CLIP_LIMIT: u32 = 32768;

/// `embedded_graphics_core::pixelcolor::BinaryColor`, the colour of a
/// tracer: drawn or not.
#[verifier::external_type_specification]
#[verifier::external_body]
pub struct ExBinaryColor(embedded_graphics_core::pixelcolor::BinaryColor);

/// `embedded_graphics_core::geometry::Size`, in which a tracer reports its
/// size.
#[verifier::external_type_specification]
#[verifier::external_body]
pub struct ExSize(embedded_graphics_core::geometry::Size);

/// A drawing target that keeps the positions drawn on it, in the order in
/// which they are drawn.
struct Tracer {
    points: Vec<(i32, i32)>,
    width: u32,
    height: u32,
}

impl OriginDimensions for Tracer {
    /// `OriginDimensions::size` of `embedded-graphics`: hands out the size
    /// the tracer was made with. Nothing is claimed of it.
    #[verifier::external_body]
    fn size(&self) -> Size {
        Size::new(self.width, self.height)
    }
}

impl DrawTarget for Tracer {
    type Color = BinaryColor;

    type Error = core::convert::Infallible;

    /// `DrawTarget::draw_iter` of `embedded-graphics`: keeps the position of
    /// each pixel handed in. Only `embedded-graphics` calls it; nothing is
    /// claimed of it.
    #[verifier::external_body]
    fn draw_iter<I>(&mut self, pixels: I) -> Result<(), Self::Error>
    where
        I: IntoIterator<Item = embedded_graphics_core::Pixel<Self::Color>>,
    {
        self.points.extend(pixels.into_iter().map(|pixel| (pixel.0.x, pixel.0.y)));
        Ok(())
    }
}

/// The positions that `embedded-graphics` draws for the outline, one pixel
/// wide, of the rectangle of the given size at `(x, y)`, in drawing order
/// and as far as they lie on a surface of `clip_width` by `clip_height`.
pub uninterp spec fn outline_points(
    x: int,
    y: int,
    width: int,
    height: int,
    clip_width: int,
    clip_height: int,
) -> Seq<(i32, i32)>;

/// The positions that `embedded-graphics` draws for the line, one pixel
/// wide, from `(x0, y0)` to `(x1, y1)`, in drawing order and as far as they
/// lie on a surface of `clip_width` by `clip_height`.
pub uninterp spec fn line_points(
    x0: int,
    y0: int,
    x1: int,
    y1: int,
    clip_width: int,
    clip_height: int,
) -> Seq<(i32, i32)>;

/// The positions that `embedded-graphics` draws for the filled triangle
/// with the three given corners, in drawing order and as far as they lie on
/// a surface of `clip_width` by `clip_height`.
pub uninterp spec fn triangle_points(
    corners: ((int, int), (int, int), (int, int)),
    clip_width: int,
    clip_height: int,
) -> Seq<(i32, i32)>;

/// The positions that `embedded-graphics` draws for `text` in `font` with
/// its baseline starting at `(x, y)`, in drawing order and as far as they
/// lie on a surface of `clip_width` by `clip_height`.
pub uninterp spec fn text_points(
    text: Seq<char>,
    x: int,
    y: int,
    font: Font,
    clip_width: int,
    clip_height: int,
) -> Seq<(i32, i32)>;

/// Whether a coordinate is one that is handed to a rasteriser.
pub open spec fn in_reach(v: int) -> bool {
    -DRAW_LIMIT <= v <= DRAW_LIMIT
}

/// Whether three coordinates of one axis lie no further apart than a
/// triangle may be wide or high.
pub open spec fn in_span(a: int, b: int, c: int) -> bool {
    &&& -TRIANGLE_SPAN <= a - b <= TRIANGLE_SPAN
    &&& -TRIANGLE_SPAN <= b - c <= TRIANGLE_SPAN
    &&& -TRIANGLE_SPAN <= a - c <= TRIANGLE_SPAN
}

/// The width or height to which a rasteriser clips on a surface that is
/// `side` wide or high.
pub open spec fn clip(side: int) -> int {
    if side <= CLIP_LIMIT {
        side
    } else {
        CLIP_LIMIT as int
    }
}

/// `Styled<Rectangle, PrimitiveStyle<_>>::draw` of `embedded-graphics`, with
/// a stroke of one pixel and no fill, on a tracer clipped to the surface:
/// returns what the tracer kept. The contract gives that result its name
/// and claims nothing else of it. Within the limits asked for, the corners
/// of the rectangle and of its borders are sums of small numbers.
#[verifier::external_body]
fn trace_outline(x: i32, y: i32, width: u32, height: u32, clip_width: u32, clip_height: u32) -> (points:
    Vec<(i32, i32)>)
    requires
        in_reach(x as int),
        in_reach(y as int),
        width <= DRAW_LIMIT,
        height <= DRAW_LIMIT,
        clip_width <= CLIP_LIMIT,
        clip_height <= CLIP_LIMIT,
    ensures
        points@ == outline_points(
            x as int,
            y as int,
            width as int,
            height as int,
            clip_width as int,
            clip_height as int,
        ),
{
    let mut tracer = Tracer { points: Vec::new(), width: clip_width, height: clip_height };
    let area = tracer.bounding_box();
    let style = PrimitiveStyle::with_stroke(BinaryColor::On, 1);
    let shape = Rectangle::new(Point::new(x, y), Size::new(width, height)).into_styled(style);
    let _ = shape.draw(&mut tracer.clipped(&area));
    tracer.points
}

/// `Styled<Line, PrimitiveStyle<_>>::draw` of `embedded-graphics`, with a
/// stroke of one pixel, on a tracer clipped to the surface: returns what the
/// tracer kept. The contract gives that result its name and claims nothing
/// else of it. The rasteriser squares sums of the line's extents; within
/// the limits asked for the squares stay in 32 bits.
#[verifier::external_body]
fn trace_line(x0: i32, y0: i32, x1: i32, y1: i32, clip_width: u32, clip_height: u32) -> (points:
    Vec<(i32, i32)>)
    requires
        in_reach(x0 as int),
        in_reach(y0 as int),
        in_reach(x1 as int),
        in_reach(y1 as int),
        clip_width <= CLIP_LIMIT,
        clip_height <= CLIP_LIMIT,
    ensures
        points@ == line_points(
            x0 as int,
            y0 as int,
            x1 as int,
            y1 as int,
            clip_width as int,
            clip_height as int,
        ),
{
    let mut tracer = Tracer { points: Vec::new(), width: clip_width, height: clip_height };
    let area = tracer.bounding_box();
    let style = PrimitiveStyle::with_stroke(BinaryColor::On, 1);
    let shape = Line::new(Point::new(x0, y0), Point::new(x1, y1)).into_styled(style);
    let _ = shape.draw(&mut tracer.clipped(&area));
    tracer.points
}

/// `Styled<Triangle, PrimitiveStyle<_>>::draw` of `embedded-graphics`, with
/// a fill and no stroke, on a tracer clipped to the surface: returns what
/// the tracer kept. The contract gives that result its name and claims
/// nothing else of it. The rasteriser multiplies a corner's coordinates by
/// the extents of two sides, and squares the product of two extents; within
/// the limits asked for both stay in 32 bits.
#[verifier::external_body]
fn trace_triangle(
    a: (i32, i32),
    b: (i32, i32),
    c: (i32, i32),
    clip_width: u32,
    clip_height: u32,
) -> (points: Vec<(i32, i32)>)
    requires
        in_reach(a.0 as int),
        in_reach(a.1 as int),
        in_reach(b.0 as int),
        in_reach(b.1 as int),
        in_reach(c.0 as int),
        in_reach(c.1 as int),
        in_span(a.0 as int, b.0 as int, c.0 as int),
        in_span(a.1 as int, b.1 as int, c.1 as int),
        clip_width <= CLIP_LIMIT,
        clip_height <= CLIP_LIMIT,
    ensures
        points@ == triangle_points(
            ((a.0 as int, a.1 as int), (b.0 as int, b.1 as int), (c.0 as int, c.1 as int)),
            clip_width as int,
            clip_height as int,
        ),
{
    let mut tracer = Tracer { points: Vec::new(), width: clip_width, height: clip_height };
    let area = tracer.bounding_box();
    let style = PrimitiveStyle::with_fill(BinaryColor::On);
    let corners = (Point::new(a.0, a.1), Point::new(b.0, b.1), Point::new(c.0, c.1));
    let shape = Triangle::new(corners.0, corners.1, corners.2).into_styled(style);
    let _ = shape.draw(&mut tracer.clipped(&area));
    tracer.points
}

/// `Text::draw` of `embedded-graphics`, in one of two of its fonts and
/// without a background, on a tracer clipped to the surface: returns what
/// the tracer kept. The contract gives that result its name and claims
/// nothing else of it. The rasteriser moves on by a glyph's width for each
/// character and by a glyph's height for each line; within the limits asked
/// for no position leaves 32 bits.
#[verifier::external_body]
fn trace_text(text: &str, x: i32, y: i32, font: Font, clip_width: u32, clip_height: u32) -> (points:
    Vec<(i32, i32)>)
    requires
        in_reach(x as int),
        in_reach(y as int),
        text.len() <= TEXT_LIMIT,
        clip_width <= CLIP_LIMIT,
        clip_height <= CLIP_LIMIT,
    ensures
        points@ == text_points(
            text@,
            x as int,
            y as int,
            font,
            clip_width as int,
            clip_height as int,
        ),
{
    let mut tracer = Tracer { points: Vec::new(), width: clip_width, height: clip_height };
    let area = tracer.bounding_box();
    let face = match font {
        Font::Mono10x20 => &FONT_10X20,
        Font::Mono9x15Bold => &FONT_9X15_BOLD,
    };
    let shape = Text::new(text, Point::new(x, y), MonoTextStyle::new(face, BinaryColor::On));
    let _ = shape.draw(&mut tracer.clipped(&area));
    tracer.points
}

/// The RGB565 pixel of a packed `0x00RRGGBB` colour.
pub open spec fn to_565(color: u32) -> Rgb565 {
    pack_565(red_888(color), green_888(color), blue_888(color))
}

/// The pixels that draw `points` in `color`, in the same order.
pub open spec fn colored(points: Seq<(i32, i32)>, color: Rgb565) -> Seq<Pixel> {
    Seq::new(points.len(), |i: int| Pixel { x: points[i].0, y: points[i].1, color })
}

/// Whether position `(px, py)` lies in the rectangle of the given size at
/// `(x, y)`.
pub open spec fn in_rect(px: int, py: int, x: int, y: int, width: int, height: int) -> bool {
    x <= px < x + width && y <= py < y + height
}

/// The pixels of a `w` by `h` surface after the rectangle of the given size
/// at `(x, y)` is filled with `color`: every position of the surface inside
/// the rectangle has the colour, every other is as it was.
pub open spec fn filled(
    pixels: Seq<Rgb565>,
    w: int,
    h: int,
    x: int,
    y: int,
    width: int,
    height: int,
    color: Rgb565,
) -> Seq<Rgb565> {
    Seq::new(
        pixels.len(),
        |i: int|
            if w > 0 && in_rect(i % w, i / w, x, y, width, height) {
                color
            } else {
                pixels[i]
            },
    )
}

impl DrawCommand {
    /// Whether the command is one that is carried out. A filled rectangle
    /// always is. Any other is if its coordinates, its sides and its text
    /// are within the limits of this module; where they are not, the
    /// command is passed over.
    pub open spec fn drawable(self) -> bool {
        match self {
            DrawCommand::FillRect { .. } => true,
            DrawCommand::StrokeRect { x, y, width, height, .. } => in_reach(x as int) && in_reach(
                y as int,
            ) && width <= DRAW_LIMIT && height <= DRAW_LIMIT,
            DrawCommand::Line { x0, y0, x1, y1, .. } => in_reach(x0 as int) && in_reach(y0 as int)
                && in_reach(x1 as int) && in_reach(y1 as int),
            DrawCommand::FillTriangle { x0, y0, x1, y1, x2, y2, .. } => in_reach(x0 as int)
                && in_reach(y0 as int) && in_reach(x1 as int) && in_reach(y1 as int) && in_reach(
                x2 as int,
            ) && in_reach(y2 as int) && in_span(x0 as int, x1 as int, x2 as int) && in_span(
                y0 as int,
                y1 as int,
                y2 as int,
            ),
            DrawCommand::Text { text, x, y, .. } => in_reach(x as int) && in_reach(y as int)
                && text.len() <= TEXT_LIMIT,
        }
    }

    /// The positions that the command touches on a surface of the given
    /// size, in drawing order, for a command that a rasteriser carries out.
    pub open spec fn traced(self, clip_width: int, clip_height: int) -> Seq<(i32, i32)> {
        match self {
            DrawCommand::FillRect { .. } => Seq::empty(),
            DrawCommand::StrokeRect { x, y, width, height, .. } => outline_points(
                x as int,
                y as int,
                width as int,
                height as int,
                clip_width,
                clip_height,
            ),
            DrawCommand::Line { x0, y0, x1, y1, .. } => line_points(
                x0 as int,
                y0 as int,
                x1 as int,
                y1 as int,
                clip_width,
                clip_height,
            ),
            DrawCommand::FillTriangle { x0, y0, x1, y1, x2, y2, .. } => triangle_points(
                ((x0 as int, y0 as int), (x1 as int, y1 as int), (x2 as int, y2 as int)),
                clip_width,
                clip_height,
            ),
            DrawCommand::Text { text, x, y, font, .. } => text_points(
                text@,
                x as int,
                y as int,
                font,
                clip_width,
                clip_height,
            ),
        }
    }

    /// The command's colour, packed `0x00RRGGBB`.
    pub open spec fn color(self) -> u32 {
        match self {
            DrawCommand::FillRect { color, .. } => color,
            DrawCommand::StrokeRect { color, .. } => color,
            DrawCommand::Line { color, .. } => color,
            DrawCommand::FillTriangle { color, .. } => color,
            DrawCommand::Text { color, .. } => color,
        }
    }
}

/// The pixels of a `w` by `h` surface after `command` is carried out on it.
/// A filled rectangle fills. Any other command paints the positions that
/// its rasteriser reports for the surface, in the command's colour, and
/// changes nothing where the command is not drawable.
pub open spec fn painted(pixels: Seq<Rgb565>, w: int, h: int, command: DrawCommand) -> Seq<
    Rgb565,
> {
    match command {
        DrawCommand::FillRect { x, y, width, height, color } => filled(
            pixels,
            w,
            h,
            x as int,
            y as int,
            width as int,
            height as int,
            to_565(color),
        ),
        _ => if command.drawable() {
            plot_all(
                pixels,
                w,
                h,
                colored(command.traced(clip(w), clip(h)), to_565(command.color())),
            )
        } else {
            pixels
        },
    }
}

/// The pixels of a surface after the commands of `scene` are carried out
/// on it, first to last.
pub open spec fn painted_all(pixels: Seq<Rgb565>, w: int, h: int, scene: Seq<DrawCommand>) -> Seq<
    Rgb565,
>
    decreases scene.len(),
{
    if scene.len() == 0 {
        pixels
    } else {
        painted(painted_all(pixels, w, h, scene.drop_last()), w, h, scene.last())
    }
}

/// Whether a coordinate is one that is handed to a rasteriser.
fn reaches(v: i32) -> (yes: bool)
    ensures
        yes == in_reach(v as int),
{
    -DRAW_LIMIT <= v && v <= DRAW_LIMIT
}

/// Whether three coordinates of one axis, each in reach, lie no further
/// apart than a triangle may be wide or high.
fn spans(a: i32, b: i32, c: i32) -> (yes: bool)
    requires
        in_reach(a as int),
        in_reach(b as int),
        in_reach(c as int),
    ensures
        yes == in_span(a as int, b as int, c as int),
{
    -TRIANGLE_SPAN <= a - b && a - b <= TRIANGLE_SPAN && -TRIANGLE_SPAN <= b - c && b - c
        <= TRIANGLE_SPAN && -TRIANGLE_SPAN <= a - c && a - c <= TRIANGLE_SPAN
}

impl DrawCommand {
    /// Whether the command is one that is carried out.
    pub fn is_drawable(&self) -> (yes: bool)
        ensures
            yes == self.drawable(),
    {
        match *self {
            DrawCommand::FillRect { .. } => true,
            DrawCommand::StrokeRect { x, y, width, height, .. } => reaches(x) && reaches(y)
                && width <= DRAW_LIMIT as u32 && height <= DRAW_LIMIT as u32,
            DrawCommand::Line { x0, y0, x1, y1, .. } => reaches(x0) && reaches(y0) && reaches(x1)
                && reaches(y1),
            DrawCommand::FillTriangle { x0, y0, x1, y1, x2, y2, .. } => reaches(x0) && reaches(y0)
                && reaches(x1) && reaches(y1) && reaches(x2) && reaches(y2) && spans(x0, x1, x2)
                && spans(y0, y1, y2),
            DrawCommand::Text { text, x, y, .. } => reaches(x) && reaches(y) && text.len()
                <= TEXT_LIMIT,
        }
    }
}

impl RenderBuffer {
    /// Paints each of `points` in `color`, in order. Positions off the
    /// surface are passed over.
    pub fn draw_points(&mut self, points: &Vec<(i32, i32)>, color: Rgb565)
        requires
            old(self).wf(),
        ensures
            final(self).wf(),
            final(self).width == old(self).width,
            final(self).height == old(self).height,
            final(self).pixels@ == plot_all(
                old(self).pixels@,
                old(self).width as int,
                old(self).height as int,
                colored(points@, color),
            ),
    {
        let mut i: usize = 0;
        assert(colored(points@.subrange(0, 0), color) =~= Seq::<Pixel>::empty());
        while i < points.len()
            invariant
                i <= points.len(),
                self.wf(),
                self.width == old(self).width,
                self.height == old(self).height,
                self.pixels@ == plot_all(
                    old(self).pixels@,
                    old(self).width as int,
                    old(self).height as int,
                    colored(points@.subrange(0, i as int), color),
                ),
            decreases points.len() - i,
        {
            let point = points[i];
            proof {
                let done = colored(points@.subrange(0, i as int), color);
                let next = colored(points@.subrange(0, i + 1), color);
                assert(next.drop_last() =~= done);
                assert(next.last() == Pixel { x: point.0, y: point.1, color });
            }
            self.draw_pixel(Pixel { x: point.0, y: point.1, color });
            i += 1;
        }
        assert(points@.subrange(0, i as int) =~= points@);
    }

    /// Fills the rectangle of the given size at `(x, y)` with `color`, as
    /// far as it lies on the surface.
    pub fn fill_rect(&mut self, x: i32, y: i32, width: u32, height: u32, color: Rgb565)
        requires
            old(self).wf(),
        ensures
            final(self).wf(),
            final(self).width == old(self).width,
            final(self).height == old(self).height,
            final(self).pixels@ == filled(
                old(self).pixels@,
                old(self).width as int,
                old(self).height as int,
                x as int,
                y as int,
                width as int,
                height as int,
                color,
            ),
            forall|px: int, py: int|
                old(self).contains(px, py) ==> #[trigger] final(self).pixel(px, py) == (if in_rect(
                    px,
                    py,
                    x as int,
                    y as int,
                    width as int,
                    height as int,
                ) {
                    color
                } else {
                    old(self).pixel(px, py)
                }),
    {
        let w: i64 = self.width as i64;
        let h: i64 = self.height as i64;
        let left: i64 = if x < 0 {
            0
        } else {
            x as i64
        };
        let top: i64 = if y < 0 {
            0
        } else {
            y as i64
        };
        let right: i64 = if x as i64 + width as i64 > w {
            w
        } else {
            x as i64 + width as i64
        };
        let bottom: i64 = if y as i64 + height as i64 > h {
            h
        } else {
            y as i64 + height as i64
        };
        let mut py: i64 = top;
        while py < bottom
            invariant
                0 <= top <= py,
                bottom <= h,
                0 <= left,
                right <= w,
                w == self.width,
                h == self.height,
                left == (if x < 0 {
                    0
                } else {
                    x as int
                }),
                top == (if y < 0 {
                    0
                } else {
                    y as int
                }),
                right == (if x + width > w {
                    w as int
                } else {
                    x + width
                }),
                bottom == (if y + height > h {
                    h as int
                } else {
                    y + height
                }),
                self.wf(),
                self.width == old(self).width,
                self.height == old(self).height,
                forall|u: int, v: int|
                    old(self).contains(u, v) ==> #[trigger] self.pixel(u, v) == (if in_rect(
                        u,
                        v,
                        x as int,
                        y as int,
                        width as int,
                        height as int,
                    ) && v < py {
                        color
                    } else {
                        old(self).pixel(u, v)
                    }),
            decreases bottom - py,
        {
            let mut px: i64 = left;
            while px < right
                invariant
                    0 <= left <= px,
                    right <= w,
                    0 <= top <= py < bottom <= h,
                    w == self.width,
                    h == self.height,
                    left == (if x < 0 {
                        0
                    } else {
                        x as int
                    }),
                    top == (if y < 0 {
                        0
                    } else {
                        y as int
                    }),
                    right == (if x + width > w {
                        w as int
                    } else {
                        x + width
                    }),
                    bottom == (if y + height > h {
                        h as int
                    } else {
                        y + height
                    }),
                    self.wf(),
                    self.width == old(self).width,
                    self.height == old(self).height,
                    forall|u: int, v: int|
                        old(self).contains(u, v) ==> #[trigger] self.pixel(u, v) == (if in_rect(
                            u,
                            v,
                            x as int,
                            y as int,
                            width as int,
                            height as int,
                        ) && (v < py || (v == py && u < px)) {
                            color
                        } else {
                            old(self).pixel(u, v)
                        }),
                decreases right - px,
            {
                let ghost prior = *self;
                self.set_pixel(px as u32, py as u32, color);
                proof {
                    assert forall|u: int, v: int| old(self).contains(u, v) implies (
                    #[trigger] self.pixel(u, v)) == (if in_rect(
                        u,
                        v,
                        x as int,
                        y as int,
                        width as int,
                        height as int,
                    ) && (v < py || (v == py && u < px + 1)) {
                        color
                    } else {
                        old(self).pixel(u, v)
                    }) by {
                        lemma_index_in_range(u, v, w as int, h as int);
                        lemma_index_in_range(px as int, py as int, w as int, h as int);
                        if v * w + u == py * w + px {
                            lemma_index_injective(u, v, px as int, py as int, w as int);
                        } else {
                            assert(self.pixel(u, v) == prior.pixel(u, v));
                        }
                    }
                }
                px += 1;
            }
            py += 1;
        }
        proof {
            let after = self.pixels@;
            let target = filled(
                old(self).pixels@,
                w as int,
                h as int,
                x as int,
                y as int,
                width as int,
                height as int,
                color,
            );
            assert forall|i: int| 0 <= i < after.len() implies after[i] == target[i] by {
                assert(w > 0) by (nonlinear_arith)
                    requires
                        0 <= i < w * h,
                        w >= 0,
                        h >= 0,
                ;
                let u = i % (w as int);
                let v = i / (w as int);
                vstd::arithmetic::div_mod::lemma_fundamental_div_mod(i, w as int);
                assert(i == w * v + u);
                assert(w * v == v * w) by (nonlinear_arith);
                assert(0 <= v) by {
                    vstd::arithmetic::div_mod::lemma_div_pos_is_pos(i, w as int);
                }
                assert(v < h) by (nonlinear_arith)
                    requires
                        i == v * w + u,
                        0 <= u < w,
                        i < w * h,
                        0 <= v,
                ;
                assert(old(self).contains(u, v));
                assert(self.pixel(u, v) == after[i]);
                assert(old(self).pixel(u, v) == old(self).pixels@[i]);
            }
            assert(after =~= target);
        }
    }

    /// Carries out one drawing command on the surface.
    pub fn draw(&mut self, command: &DrawCommand)
        requires
            old(self).wf(),
        ensures
            final(self).wf(),
            final(self).width == old(self).width,
            final(self).height == old(self).height,
            final(self).pixels@ == painted(
                old(self).pixels@,
                old(self).width as int,
                old(self).height as int,
                *command,
            ),
    {
        if !command.is_drawable() {
            return ;
        }
        let w: u32 = if self.width <= CLIP_LIMIT {
            self.width
        } else {
            CLIP_LIMIT
        };
        let h: u32 = if self.height <= CLIP_LIMIT {
            self.height
        } else {
            CLIP_LIMIT
        };
        match *command {
            DrawCommand::FillRect { x, y, width, height, color } => {
                self.fill_rect(x, y, width, height, argb_to_565(color));
            },
            DrawCommand::StrokeRect { x, y, width, height, color } => {
                let points = trace_outline(x, y, width, height, w, h);
                self.draw_points(&points, argb_to_565(color));
            },
            DrawCommand::Line { x0, y0, x1, y1, color } => {
                let points = trace_line(x0, y0, x1, y1, w, h);
                self.draw_points(&points, argb_to_565(color));
            },
            DrawCommand::FillTriangle { x0, y0, x1, y1, x2, y2, color } => {
                let points = trace_triangle((x0, y0), (x1, y1), (x2, y2), w, h);
                self.draw_points(&points, argb_to_565(color));
            },
            DrawCommand::Text { text, x, y, font, color } => {
                let points = trace_text(text, x, y, font, w, h);
                self.draw_points(&points, argb_to_565(color));
            },
        }
    }

    /// Carries out the commands of `scene` on the surface, first to last.
    pub fn draw_all(&mut self, scene: &Vec<DrawCommand>)
        requires
            old(self).wf(),
        ensures
            final(self).wf(),
            final(self).width == old(self).width,
            final(self).height == old(self).height,
            final(self).pixels@ == painted_all(
                old(self).pixels@,
                old(self).width as int,
                old(self).height as int,
                scene@,
            ),
    {
        let mut i: usize = 0;
        while i < scene.len()
            invariant
                i <= scene.len(),
                self.wf(),
                self.width == old(self).width,
                self.height == old(self).height,
                self.pixels@ == painted_all(
                    old(self).pixels@,
                    old(self).width as int,
                    old(self).height as int,
                    scene@.subrange(0, i as int),
                ),
            decreases scene.len() - i,
        {
            proof {
                let done = scene@.subrange(0, i as int);
                let next = scene@.subrange(0, i + 1);
                assert(next.drop_last() =~= done);
                assert(next.last() == scene@[i as int]);
            }
            self.draw(&scene[i]);
            i += 1;
        }
        assert(scene@.subrange(0, i as int) =~= scene@);
    }
}

} // verus!
