//! The status bar across the top of the surface: the name of the device on
//! the left, and on the right the battery, the signal bars and the link
//! mark.

use crate::ui::colors::{COMMENT, CYAN, FOREGROUND, GREEN, PURPLE, RED, SELECTION};
use crate::ui::draw::{DrawCommand, Font};
use crate::display::raster::painted_all;
use crate::display::surface::RenderBuffer;
use crate::ui::icons::battery::{append_bolt, bolt};
use vstd::prelude::*;

verus! {

/// Height of the status bar.
pub const STATUSBAR_HEIGHT: i32 = 24;

/// What the status bar shows besides the battery.
#[derive(Debug, Clone, Copy, PartialEq, Eq)]
pub struct StatusBar {
    /// Signal strength in bars, zero to four.
    pub signal: u8,
    /// Whether the link mark is shown.
    pub connected: bool,
}

impl Default for StatusBar {
    /// Full signal, connected.
    fn default() -> (bar: StatusBar)
        ensures
            bar.signal == 4,
            bar.connected,
    {
        StatusBar { signal: 4, connected: true }
    }
}

/// Width of the charge bar inside the battery at `battery` percent: sixteen
/// pixels at a hundred, in proportion below, and never less than one.
pub open spec fn charge_width(battery: u8) -> int {
    if 16 * battery as int / 100 >= 1 {
        16 * battery as int / 100
    } else {
        1
    }
}

/// The battery with its left edge at `x`: outline, tip, a charge bar that
/// is green above a fifth of the charge and red at or below it, and a bolt
/// while charging.
pub open spec fn battery_icon(x: int, battery: u8, charging: bool) -> Seq<DrawCommand> {
    seq![
        DrawCommand::StrokeRect { x: x as i32, y: 8, width: 18, height: 10, color: FOREGROUND },
        DrawCommand::FillRect { x: (x + 18) as i32, y: 11, width: 3, height: 4, color: FOREGROUND },
        DrawCommand::FillRect {
            x: (x + 1) as i32,
            y: 9,
            width: charge_width(battery) as u32,
            height: 8,
            color: if battery > 20 {
                GREEN
            } else {
                RED
            },
        },
    ] + if charging {
        bolt(x, 8)
    } else {
        Seq::empty()
    }
}

/// Signal bar `index` of the four with their left edge at `x`: each three
/// pixels wide and three higher than the one before, standing on one line,
/// lit if the signal reaches it.
pub open spec fn signal_bar(x: int, index: int, signal: u8) -> DrawCommand {
    DrawCommand::FillRect {
        x: (x + index * 4) as i32,
        y: (20 - (4 + index * 3)) as i32,
        width: 3,
        height: (4 + index * 3) as u32,
        color: if index < signal {
            CYAN
        } else {
            COMMENT
        },
    }
}

/// The four signal bars, shortest first.
pub open spec fn signal_bars(x: int, signal: u8) -> Seq<DrawCommand> {
    Seq::new(4, |index: int| signal_bar(x, index, signal))
}

/// Arc `index` of the link mark with its left edge at `x`: a level line
/// centred six pixels in, each four pixels higher and six wider than the one
/// before.
pub open spec fn link_arc(x: int, index: int) -> DrawCommand {
    DrawCommand::Line {
        x0: (x + 6 - (3 + index * 3)) as i32,
        y0: (16 - index * 4) as i32,
        x1: (x + 6 + (3 + index * 3)) as i32,
        y1: (16 - index * 4) as i32,
        color: PURPLE,
    }
}

/// The three arcs of the link mark, lowest first.
pub open spec fn link_mark(x: int) -> Seq<DrawCommand> {
    Seq::new(3, |index: int| link_arc(x, index))
}

impl StatusBar {
    /// Everything that draws the status bar on a surface `width` wide: the
    /// bar and the name, then from the right edge inwards the battery, the
    /// signal bars and, if connected, the link mark.
    pub open spec fn scene(&self, width: int, battery: u8, charging: bool) -> Seq<DrawCommand> {
        seq![
            DrawCommand::FillRect {
                x: 0,
                y: 0,
                width: width as u32,
                height: STATUSBAR_HEIGHT as u32,
                color: SELECTION,
            },
            DrawCommand::Text {
                text: "OpenPager",
                x: 6,
                y: 18,
                font: Font::Mono9x15Bold,
                color: FOREGROUND,
            },
        ] + battery_icon(width - 30, battery, charging) + signal_bars(width - 55, self.signal)
            + if self.connected {
            link_mark(width - 70)
        } else {
            Seq::empty()
        }
    }

    /// Draws the status bar for the given charge: carries out the commands
    /// of [`StatusBar::scene`] on the surface.
    pub fn render(&self, display: &mut RenderBuffer, battery: u8, charging: bool)
        requires
            old(display).wf(),
            old(display).width <= i32::MAX,
        ensures
            final(display).wf(),
            final(display).width == old(display).width,
            final(display).height == old(display).height,
            final(display).pixels@ == painted_all(
                old(display).pixels@,
                old(display).width as int,
                old(display).height as int,
                self.scene(old(display).width as int, battery, charging),
            ),
    {
        let scene = self.layout(display.width, battery, charging);
        display.draw_all(&scene);
    }

    /// The commands that draw the status bar for the given charge on a
    /// surface `width` wide, exactly those of [`StatusBar::scene`].
    pub fn layout(&self, width: u32, battery: u8, charging: bool) -> (scene: Vec<DrawCommand>)
        requires
            width <= i32::MAX,
        ensures
            scene@ == self.scene(width as int, battery, charging),
    {
        let mut scene: Vec<DrawCommand> = Vec::new();
        scene.push(
            DrawCommand::FillRect {
                x: 0,
                y: 0,
                width,
                height: STATUSBAR_HEIGHT as u32,
                color: SELECTION,
            },
        );
        scene.push(
            DrawCommand::Text {
                text: "OpenPager",
                x: 6,
                y: 18,
                font: Font::Mono9x15Bold,
                color: FOREGROUND,
            },
        );
        let right_x: i32 = width as i32 - 10;
        self.draw_battery(&mut scene, right_x - 20, battery, charging);
        self.draw_signal(&mut scene, right_x - 45);
        if self.connected {
            self.draw_connected(&mut scene, right_x - 60);
        }
        assert(scene@ =~= self.scene(width as int, battery, charging));
        scene
    }

    /// Appends the battery.
    fn draw_battery(&self, scene: &mut Vec<DrawCommand>, x: i32, battery: u8, charging: bool)
        requires
            -1000 <= x <= i32::MAX - 30,
        ensures
            final(scene)@ == old(scene)@ + battery_icon(x as int, battery, charging),
    {
        let color = if battery > 20 {
            GREEN
        } else {
            RED
        };
        scene.push(DrawCommand::StrokeRect { x, y: 8, width: 18, height: 10, color: FOREGROUND });
        scene.push(
            DrawCommand::FillRect { x: x + 18, y: 11, width: 3, height: 4, color: FOREGROUND },
        );
        let scaled: u32 = 16 * (battery as u32) / 100;
        let fill_width: u32 = if scaled >= 1 {
            scaled
        } else {
            1
        };
        scene.push(DrawCommand::FillRect { x: x + 1, y: 9, width: fill_width, height: 8, color });
        if charging {
            append_bolt(scene, x, 8);
        }
        assert(scene@ =~= old(scene)@ + battery_icon(x as int, battery, charging));
    }

    /// Appends the signal bars.
    fn draw_signal(&self, scene: &mut Vec<DrawCommand>, x: i32)
        requires
            -1000 <= x <= i32::MAX - 30,
        ensures
            final(scene)@ == old(scene)@ + signal_bars(x as int, self.signal),
    {
        let mut i: i32 = 0;
        while i < 4
            invariant
                0 <= i <= 4,
                -1000 <= x <= i32::MAX - 30,
                scene@ == old(scene)@ + Seq::new(
                    i as nat,
                    |index: int| signal_bar(x as int, index, self.signal),
                ),
            decreases 4 - i,
        {
            let bar_height: i32 = 4 + i * 3;
            let y: i32 = 20 - bar_height;
            let color = if i < self.signal as i32 {
                CYAN
            } else {
                COMMENT
            };
            scene.push(
                DrawCommand::FillRect {
                    x: x + i * 4,
                    y,
                    width: 3,
                    height: bar_height as u32,
                    color,
                },
            );
            assert(scene@ =~= old(scene)@ + Seq::new(
                (i + 1) as nat,
                |index: int| signal_bar(x as int, index, self.signal),
            ));
            i += 1;
        }
    }

    /// Appends the link mark.
    fn draw_connected(&self, scene: &mut Vec<DrawCommand>, x: i32)
        requires
            -1000 <= x <= i32::MAX - 30,
        ensures
            final(scene)@ == old(scene)@ + link_mark(x as int),
    {
        let mut i: i32 = 0;
        while i < 3
            invariant
                0 <= i <= 3,
                -1000 <= x <= i32::MAX - 30,
                scene@ == old(scene)@ + Seq::new(i as nat, |index: int| link_arc(x as int, index)),
            decreases 3 - i,
        {
            let y: i32 = 16 - i * 4;
            let half_width: i32 = 3 + i * 3;
            scene.push(
                DrawCommand::Line {
                    x0: x + 6 - half_width,
                    y0: y,
                    x1: x + 6 + half_width,
                    y1: y,
                    color: PURPLE,
                },
            );
            assert(scene@ =~= old(scene)@ + Seq::new(
                (i + 1) as nat,
                |index: int| link_arc(x as int, index),
            ));
            i += 1;
        }
    }
}

} // verus!
