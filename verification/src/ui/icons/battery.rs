//! The battery icon: an outline with a tip, three charge segments, and a
//! bolt over it while charging.

use crate::display::raster::painted_all;
use crate::display::surface::RenderBuffer;
use crate::ui::colors::{BACKGROUND, CYAN, FOREGROUND, GREEN, RED, YELLOW};
use crate::ui::draw::DrawCommand;
use vstd::prelude::*;

verus! {

/// Width of the icon: eighteen pixels of body and three of tip.
pub const WIDTH: i32 = 21;

/// Number of charge segments.
pub const SEGMENT_COUNT: u8 = 3;

/// Top of the icon.
pub const ICON_TOP: i32 = 8;

/// The three strokes of a bolt whose icon has its left edge at `x` and its
/// top at `y`.
pub open spec fn bolt_strokes(x: int, y: int, color: u32) -> Seq<DrawCommand> {
    seq![
        DrawCommand::Line {
            x0: (x + 10) as i32,
            y0: y as i32,
            x1: (x + 7) as i32,
            y1: (y + 5) as i32,
            color,
        },
        DrawCommand::Line {
            x0: (x + 7) as i32,
            y0: (y + 5) as i32,
            x1: (x + 11) as i32,
            y1: (y + 5) as i32,
            color,
        },
        DrawCommand::Line {
            x0: (x + 11) as i32,
            y0: (y + 5) as i32,
            x1: (x + 8) as i32,
            y1: (y + 10) as i32,
            color,
        },
    ]
}

/// A bolt with a dark outline: the bolt in the background colour at each of
/// the eight positions one pixel around, column by column, then the bolt
/// itself in yellow.
pub open spec fn bolt(x: int, y: int) -> Seq<DrawCommand> {
    bolt_strokes(x - 1, y - 1, BACKGROUND) + bolt_strokes(x - 1, y, BACKGROUND) + bolt_strokes(
        x - 1,
        y + 1,
        BACKGROUND,
    ) + bolt_strokes(x, y - 1, BACKGROUND) + bolt_strokes(x, y + 1, BACKGROUND) + bolt_strokes(
        x + 1,
        y - 1,
        BACKGROUND,
    ) + bolt_strokes(x + 1, y, BACKGROUND) + bolt_strokes(x + 1, y + 1, BACKGROUND)
        + bolt_strokes(x, y, YELLOW)
}

/// Segments that are lit at a charge of `battery` percent: all three at a
/// hundred, else one for each full third, three at most.
pub open spec fn lit_segments(battery: u8) -> int {
    if battery == 100 {
        3
    } else if battery as int * 3 / 100 >= 3 {
        3
    } else {
        battery as int * 3 / 100
    }
}

/// Colour of segment `index`: dark where it is not lit; where it is lit, red
/// at a fifth of the charge or less, cyan at full charge, green between.
pub open spec fn segment_color(index: int, battery: u8) -> u32 {
    if index < lit_segments(battery) {
        if battery <= 20 {
            RED
        } else if battery == 100 {
            CYAN
        } else {
            GREEN
        }
    } else {
        BACKGROUND
    }
}

/// The body of the icon with its left edge at `x`: outline, tip, and the
/// three segments left to right.
pub open spec fn body(x: int, battery: u8) -> Seq<DrawCommand> {
    seq![
        DrawCommand::StrokeRect {
            x: x as i32,
            y: ICON_TOP,
            width: 18,
            height: 10,
            color: FOREGROUND,
        },
        DrawCommand::FillRect {
            x: (x + 18) as i32,
            y: 11,
            width: 3,
            height: 4,
            color: FOREGROUND,
        },
        DrawCommand::FillRect {
            x: (x + 2) as i32,
            y: 10,
            width: 4,
            height: 6,
            color: segment_color(0, battery),
        },
        DrawCommand::FillRect {
            x: (x + 7) as i32,
            y: 10,
            width: 4,
            height: 6,
            color: segment_color(1, battery),
        },
        DrawCommand::FillRect {
            x: (x + 12) as i32,
            y: 10,
            width: 4,
            height: 6,
            color: segment_color(2, battery),
        },
    ]
}

/// The whole icon with its right edge at `cursor`.
pub open spec fn icon(cursor: int, battery: u8, charging: bool) -> Seq<DrawCommand> {
    body(cursor - WIDTH, battery) + if charging {
        bolt(cursor - WIDTH, ICON_TOP as int)
    } else {
        Seq::empty()
    }
}

/// Appends the three strokes of a bolt.
fn push_strokes(scene: &mut Vec<DrawCommand>, x: i32, y: i32, color: u32)
    requires
        i32::MIN <= x,
        x + 11 <= i32::MAX,
        y + 10 <= i32::MAX,
    ensures
        final(scene)@ == old(scene)@ + bolt_strokes(x as int, y as int, color),
{
    scene.push(DrawCommand::Line { x0: x + 10, y0: y, x1: x + 7, y1: y + 5, color });
    scene.push(DrawCommand::Line { x0: x + 7, y0: y + 5, x1: x + 11, y1: y + 5, color });
    scene.push(DrawCommand::Line { x0: x + 11, y0: y + 5, x1: x + 8, y1: y + 10, color });
    assert(scene@ =~= old(scene)@ + bolt_strokes(x as int, y as int, color));
}

/// Appends the commands of a bolt with its outline.
pub fn append_bolt(scene: &mut Vec<DrawCommand>, x: i32, y_offset: i32)
    requires
        i32::MIN + 1 <= x,
        x + 12 <= i32::MAX,
        i32::MIN + 1 <= y_offset,
        y_offset + 11 <= i32::MAX,
    ensures
        final(scene)@ == old(scene)@ + bolt(x as int, y_offset as int),
{
    push_strokes(scene, x - 1, y_offset - 1, BACKGROUND);
    push_strokes(scene, x - 1, y_offset, BACKGROUND);
    push_strokes(scene, x - 1, y_offset + 1, BACKGROUND);
    push_strokes(scene, x, y_offset - 1, BACKGROUND);
    push_strokes(scene, x, y_offset + 1, BACKGROUND);
    push_strokes(scene, x + 1, y_offset - 1, BACKGROUND);
    push_strokes(scene, x + 1, y_offset, BACKGROUND);
    push_strokes(scene, x + 1, y_offset + 1, BACKGROUND);
    push_strokes(scene, x, y_offset, YELLOW);
    assert(scene@ =~= old(scene)@ + bolt(x as int, y_offset as int));
}

/// Colour of one segment.
fn color_of_segment(index: u8, battery: u8) -> (color: u32)
    ensures
        color == segment_color(index as int, battery),
{
    let filled: u16 = if battery == 100 {
        3
    } else {
        let thirds: u16 = (battery as u16) * 3 / 100;
        if thirds >= 3 {
            3
        } else {
            thirds
        }
    };
    if (index as u16) < filled {
        if battery <= 20 {
            RED
        } else if battery == 100 {
            CYAN
        } else {
            GREEN
        }
    } else {
        BACKGROUND
    }
}

/// The commands that draw the battery icon so that it ends at `cursor`. The
/// cursor must leave room for the icon and its outline in the coordinate
/// range.
pub fn layout(cursor: i32, battery: u8, charging: bool) -> (scene: Vec<DrawCommand>)
    requires
        cursor - WIDTH - 1 >= i32::MIN,
    ensures
        scene@ == icon(cursor as int, battery, charging),
{
    let x: i32 = cursor - WIDTH;
    let mut scene: Vec<DrawCommand> = Vec::new();
    scene.push(
        DrawCommand::StrokeRect { x, y: ICON_TOP, width: 18, height: 10, color: FOREGROUND },
    );
    scene.push(
        DrawCommand::FillRect { x: x + 18, y: ICON_TOP + 3, width: 3, height: 4, color: FOREGROUND },
    );
    scene.push(
        DrawCommand::FillRect {
            x: x + 2,
            y: ICON_TOP + 2,
            width: 4,
            height: 6,
            color: color_of_segment(0, battery),
        },
    );
    scene.push(
        DrawCommand::FillRect {
            x: x + 7,
            y: ICON_TOP + 2,
            width: 4,
            height: 6,
            color: color_of_segment(1, battery),
        },
    );
    scene.push(
        DrawCommand::FillRect {
            x: x + 12,
            y: ICON_TOP + 2,
            width: 4,
            height: 6,
            color: color_of_segment(2, battery),
        },
    );
    assert(scene@ =~= body(x as int, battery));
    if charging {
        append_bolt(&mut scene, x, ICON_TOP);
    }
    assert(scene@ =~= icon(cursor as int, battery, charging));
    scene
}

/// Draws the battery icon so that it ends at `cursor`, and returns its
/// width. The cursor must leave room for the icon and its outline in the
/// coordinate range.
pub fn draw(display: &mut RenderBuffer, cursor: i32, battery: u8, charging: bool) -> (width: i32)
    requires
        old(display).wf(),
        cursor - WIDTH - 1 >= i32::MIN,
    ensures
        width == WIDTH,
        final(display).wf(),
        final(display).width == old(display).width,
        final(display).height == old(display).height,
        final(display).pixels@ == painted_all(
            old(display).pixels@,
            old(display).width as int,
            old(display).height as int,
            icon(cursor as int, battery, charging),
        ),
{
    let scene = layout(cursor, battery, charging);
    display.draw_all(&scene);
    WIDTH
}

} // verus!
