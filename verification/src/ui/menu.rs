//! The scrolling menu: a titled list of which one row is selected, shown
//! through a window of rows that follows the selection.

use crate::display::color::Rgb565;
use crate::display::raster::painted_all;
use crate::display::surface::RenderBuffer;
use crate::platform::Action;
use crate::ui::colors::{BACKGROUND, COMMENT, CYAN, FOREGROUND, PURPLE};
use crate::ui::draw::{DrawCommand, Font};
use crate::ui::statusbar::STATUSBAR_HEIGHT;
use crate::ui::stack::applied;
use crate::ui::view::ViewResult;
use vstd::prelude::*;

verus! {

/// Height of one row of the list.
pub const ITEM_HEIGHT: i32 = 22;

/// Baseline of the title.
pub const TITLE_Y: i32 = STATUSBAR_HEIGHT + 16;

/// Top of the line under the title.
pub const SEPARATOR_Y: i32 = STATUSBAR_HEIGHT + 20;

/// Baseline of the first row.
pub const ITEM_START_Y: i32 = STATUSBAR_HEIGHT + 38;

/// Rows of the scroll window of a new menu.
pub const DEFAULT_VISIBLE: usize = 5;

/// What selecting a row does.
#[derive(Debug, Clone, Copy)]
pub enum MenuAction<'a> {
    /// Opens a fresh menu made from this blueprint. The menu is made when
    /// the row is selected, not before.
    SubMenu(&'a Menu<'a>),
    /// Leaves the program.
    Exit,
    /// Does nothing.
    Nothing,
}

/// One row of a menu.
#[derive(Debug, Clone, Copy)]
pub struct MenuItem<'a> {
    pub label: &'static str,
    pub action: MenuAction<'a>,
}

/// A menu and where the user is in it.
#[derive(Debug)]
pub struct Menu<'a> {
    pub title: &'static str,
    pub items: Vec<MenuItem<'a>>,
    /// Index of the selected row.
    pub selected: usize,
    /// Index of the first row of the scroll window.
    pub scroll: usize,
    /// Rows of the scroll window, at least one.
    pub visible: usize,
}

/// Rows that fit under the header on a surface of the given height: what is
/// left below the first row's baseline, divided by the row height and
/// rounded up so that a last partial row is used, and never less than one.
pub open spec fn visible_rows(height: int) -> int {
    if height <= ITEM_START_Y {
        1
    } else {
        (height - ITEM_START_Y + ITEM_HEIGHT - 1) / (ITEM_HEIGHT as int)
    }
}

/// `a - b`, or zero where that would be negative.
pub open spec fn minus_or_zero(a: int, b: int) -> int {
    if a >= b {
        a - b
    } else {
        0
    }
}

impl<'a> Menu<'a> {
    /// The window holds at least one row and the selected row lies in it;
    /// the selected row exists unless the menu is empty.
    pub open spec fn wf(&self) -> bool {
        &&& self.visible >= 1
        &&& self.scroll <= self.selected < self.scroll + self.visible
        &&& (self.selected < self.items@.len() || (self.items@.len() == 0 && self.selected == 0))
    }

    /// Whether this menu is a fresh copy of `blueprint`: the same title and
    /// rows, the first row selected, the window at the top.
    pub open spec fn opened_from(&self, blueprint: &Menu<'a>) -> bool {
        &&& self.title == blueprint.title
        &&& self.items@ == blueprint.items@
        &&& self.selected == 0
        &&& self.scroll == 0
        &&& self.visible == DEFAULT_VISIBLE
    }

    /// Selected row and window start after `action`. Going up moves the
    /// selection one row up unless it is on the first row, and pulls the
    /// window up to it. Going down moves it one row down unless it is on
    /// the last row, and pushes the window down so that the selection is
    /// its last row. Nothing else moves either.
    pub open spec fn moved(&self, action: Action) -> (int, int) {
        let selected = self.selected as int;
        let scroll = self.scroll as int;
        match action {
            Action::Up => if selected > 0 {
                (
                    selected - 1,
                    if selected - 1 < scroll {
                        selected - 1
                    } else {
                        scroll
                    },
                )
            } else {
                (selected, scroll)
            },
            Action::Down => if selected + 1 < self.items@.len() {
                (
                    selected + 1,
                    if selected + 1 >= scroll + self.visible {
                        selected + 1 - self.visible + 1
                    } else {
                        scroll
                    },
                )
            } else {
                (selected, scroll)
            },
            Action::Select => (selected, scroll),
            Action::Back => (selected, scroll),
        }
    }

    /// Whether `result` is what the menu answers to `action`. Back always
    /// pops. Select does what the selected row says: it pushes a fresh copy
    /// of the row's blueprint, or exits, or does nothing. Moving the
    /// selection asks nothing of the stack.
    pub open spec fn answers(&self, action: Action, result: ViewResult<Menu<'a>>) -> bool {
        match action {
            Action::Up => result is Nothing,
            Action::Down => result is Nothing,
            Action::Back => result is Pop,
            Action::Select => if self.selected < self.items@.len() {
                match self.items@[self.selected as int].action {
                    MenuAction::SubMenu(blueprint) => result matches ViewResult::Push(opened)
                        && opened.opened_from(blueprint),
                    MenuAction::Exit => result is Exit,
                    MenuAction::Nothing => result is Nothing,
                }
            } else {
                result is Nothing
            },
        }
    }

    /// Number of rows drawn on a surface of the given height: those from
    /// the window start on that fit and exist.
    pub open spec fn rows_shown(&self, height: int) -> int {
        let left = self.items@.len() - self.scroll;
        if left <= 0 {
            0
        } else if left <= visible_rows(height) {
            left
        } else {
            visible_rows(height)
        }
    }

    /// Whether rows are hidden above the window.
    pub open spec fn scrolls_up(&self) -> bool {
        self.scroll > 0
    }

    /// Whether rows are hidden below what a surface of this height shows.
    pub open spec fn scrolls_down(&self, height: int) -> bool {
        self.scroll + visible_rows(height) < self.items@.len()
    }

    /// Width of the highlight of the selected row: the surface's width less
    /// a margin, which is wider where scroll arrows are drawn.
    pub open spec fn selection_width(&self, width: int, height: int) -> int {
        if self.scrolls_up() || self.scrolls_down(height) {
            minus_or_zero(width, 35)
        } else {
            minus_or_zero(width, 10)
        }
    }

    /// The commands that clear the area under the status bar and draw the
    /// title and the line under it.
    pub open spec fn header(&self, width: int, height: int) -> Seq<DrawCommand> {
        seq![
            DrawCommand::FillRect {
                x: 0,
                y: STATUSBAR_HEIGHT,
                width: width as u32,
                height: minus_or_zero(height, STATUSBAR_HEIGHT as int) as u32,
                color: BACKGROUND,
            },
            DrawCommand::Text {
                text: self.title,
                x: 10,
                y: TITLE_Y,
                font: Font::Mono10x20,
                color: PURPLE,
            },
            DrawCommand::FillRect {
                x: 0,
                y: SEPARATOR_Y,
                width: width as u32,
                height: 2,
                color: COMMENT,
            },
        ]
    }

    /// The commands that draw row `slot` of the window. The selected row is
    /// a highlight with the label in the background colour over it; any
    /// other row is its label in the foreground colour.
    pub open spec fn row(&self, slot: int, width: int, height: int) -> Seq<DrawCommand> {
        let index = self.scroll + slot;
        let baseline = (ITEM_START_Y + slot * ITEM_HEIGHT) as i32;
        if index == self.selected {
            seq![
                DrawCommand::FillRect {
                    x: 5,
                    y: (baseline - 15) as i32,
                    width: self.selection_width(width, height) as u32,
                    height: (ITEM_HEIGHT - 2) as u32,
                    color: CYAN,
                },
                DrawCommand::Text {
                    text: self.items@[index].label,
                    x: 10,
                    y: baseline,
                    font: Font::Mono10x20,
                    color: BACKGROUND,
                },
            ]
        } else {
            seq![
                DrawCommand::Text {
                    text: self.items@[index].label,
                    x: 10,
                    y: baseline,
                    font: Font::Mono10x20,
                    color: FOREGROUND,
                },
            ]
        }
    }

    /// The commands that draw the first `count` rows of the window, top
    /// down.
    pub open spec fn rows(&self, count: int, width: int, height: int) -> Seq<DrawCommand>
        decreases count,
    {
        if count <= 0 {
            Seq::empty()
        } else {
            self.rows(count - 1, width, height) + self.row(count - 1, width, height)
        }
    }

    /// The commands that draw the scroll arrows at the right edge: one that
    /// points up beside the first row where rows are hidden above, one that
    /// points down at the bottom where rows are hidden below.
    pub open spec fn arrows(&self, width: int, height: int) -> Seq<DrawCommand> {
        let left = (width - 18) as i32;
        let up = if self.scrolls_up() {
            seq![
                DrawCommand::FillTriangle {
                    x0: left,
                    y0: (ITEM_START_Y - 2) as i32,
                    x1: (left + 8) as i32,
                    y1: (ITEM_START_Y - 2) as i32,
                    x2: (left + 4) as i32,
                    y2: (ITEM_START_Y - 10) as i32,
                    color: FOREGROUND,
                },
            ]
        } else {
            Seq::empty()
        };
        let down = if self.scrolls_down(height) {
            seq![
                DrawCommand::FillTriangle {
                    x0: left,
                    y0: (height - 12) as i32,
                    x1: (left + 8) as i32,
                    y1: (height - 12) as i32,
                    x2: (left + 4) as i32,
                    y2: (height - 4) as i32,
                    color: FOREGROUND,
                },
            ]
        } else {
            Seq::empty()
        };
        up + down
    }

    /// Everything that draws the menu on a surface of the given size, in
    /// drawing order: header, rows, arrows.
    pub open spec fn scene(&self, width: int, height: int) -> Seq<DrawCommand> {
        self.header(width, height) + self.rows(self.rows_shown(height), width, height)
            + self.arrows(width, height)
    }

    /// Whether the selection and the window are where a menu can have them,
    /// which is what `render` and `handle` ask for.
    pub fn is_well_formed(&self) -> (ok: bool)
        ensures
            ok == self.wf(),
    {
        let count = self.items.len();
        self.visible >= 1 && self.scroll <= self.selected && self.selected - self.scroll
            < self.visible && (self.selected < count || (count == 0 && self.selected == 0))
    }

    /// A menu with its first row selected and its window at the top.
    pub fn new(title: &'static str, items: Vec<MenuItem<'a>>) -> (menu: Menu<'a>)
        ensures
            menu.wf(),
            menu.title == title,
            menu.items == items,
            menu.selected == 0,
            menu.scroll == 0,
            menu.visible == DEFAULT_VISIBLE,
    {
        Menu { title, items, selected: 0, scroll: 0, visible: DEFAULT_VISIBLE }
    }

    /// Makes a fresh menu from a blueprint, as [`Menu::new`] would from the
    /// blueprint's title and rows.
    pub fn open(blueprint: &'a Menu<'a>) -> (menu: Menu<'a>)
        ensures
            menu.wf(),
            menu.opened_from(blueprint),
    {
        let mut items: Vec<MenuItem<'a>> = Vec::new();
        let mut i: usize = 0;
        while i < blueprint.items.len()
            invariant
                i <= blueprint.items.len(),
                items@ == blueprint.items@.subrange(0, i as int),
            decreases blueprint.items.len() - i,
        {
            items.push(blueprint.items[i]);
            i += 1;
        }
        assert(items@ =~= blueprint.items@);
        Menu { title: blueprint.title, items, selected: 0, scroll: 0, visible: DEFAULT_VISIBLE }
    }

    /// Rows that fit under the header on a surface of the given height.
    pub fn visible_items(&self, height: u32) -> (rows: usize)
        requires
            height <= i32::MAX,
        ensures
            rows == visible_rows(height as int),
            rows >= 1,
            ITEM_START_Y + (rows - 1) * ITEM_HEIGHT <= i32::MAX,
    {
        if height <= ITEM_START_Y as u32 {
            1
        } else {
            ((height - ITEM_START_Y as u32 + (ITEM_HEIGHT as u32 - 1)) / ITEM_HEIGHT as u32) as usize
        }
    }

    /// The commands that draw the menu on a surface of the given size,
    /// exactly those of [`Menu::scene`]. Sizes are limited to what signed
    /// pixel coordinates can address.
    pub fn layout(&self, width: u32, height: u32) -> (scene: Vec<DrawCommand>)
        requires
            self.wf(),
            width <= i32::MAX,
            height <= i32::MAX,
        ensures
            scene@ == self.scene(width as int, height as int),
    {
        let visible = self.visible_items(height);
        let count = self.items.len();
        let left: usize = if self.scroll < count {
            count - self.scroll
        } else {
            0
        };
        let shown: usize = if left <= visible {
            left
        } else {
            visible
        };
        let has_scroll_up = self.scroll > 0;
        let has_scroll_down = left > visible;
        let has_arrows = has_scroll_up || has_scroll_down;
        let margin: u32 = if has_arrows {
            35
        } else {
            10
        };
        let selection_width: u32 = if width >= margin {
            width - margin
        } else {
            0
        };
        let body_height: u32 = if height >= STATUSBAR_HEIGHT as u32 {
            height - STATUSBAR_HEIGHT as u32
        } else {
            0
        };

        let mut scene: Vec<DrawCommand> = Vec::new();
        scene.push(
            DrawCommand::FillRect {
                x: 0,
                y: STATUSBAR_HEIGHT,
                width,
                height: body_height,
                color: BACKGROUND,
            },
        );
        scene.push(
            DrawCommand::Text {
                text: self.title,
                x: 10,
                y: TITLE_Y,
                font: Font::Mono10x20,
                color: PURPLE,
            },
        );
        scene.push(
            DrawCommand::FillRect { x: 0, y: SEPARATOR_Y, width, height: 2, color: COMMENT },
        );
        assert(scene@ =~= self.header(width as int, height as int));

        let mut slot: usize = 0;
        while slot < shown
            invariant
                slot <= shown,
                count == self.items@.len(),
                shown == self.rows_shown(height as int),
                shown <= visible,
                visible == visible_rows(height as int),
                ITEM_START_Y + (visible - 1) * ITEM_HEIGHT <= i32::MAX,
                shown > 0 ==> self.scroll + shown <= self.items@.len(),
                selection_width == self.selection_width(width as int, height as int),
                scene@ == self.header(width as int, height as int) + self.rows(
                    slot as int,
                    width as int,
                    height as int,
                ),
            decreases shown - slot,
        {
            let index = self.scroll + slot;
            let baseline: i32 = ITEM_START_Y + (slot as i32) * ITEM_HEIGHT;
            let label = self.items[index].label;
            let ghost before = scene@;
            if index == self.selected {
                scene.push(
                    DrawCommand::FillRect {
                        x: 5,
                        y: baseline - 15,
                        width: selection_width,
                        height: (ITEM_HEIGHT - 2) as u32,
                        color: CYAN,
                    },
                );
                scene.push(
                    DrawCommand::Text {
                        text: label,
                        x: 10,
                        y: baseline,
                        font: Font::Mono10x20,
                        color: BACKGROUND,
                    },
                );
            } else {
                scene.push(
                    DrawCommand::Text {
                        text: label,
                        x: 10,
                        y: baseline,
                        font: Font::Mono10x20,
                        color: FOREGROUND,
                    },
                );
            }
            proof {
                assert(scene@ =~= before + self.row(slot as int, width as int, height as int));
                assert(self.rows(slot + 1, width as int, height as int) == self.rows(
                    slot as int,
                    width as int,
                    height as int,
                ) + self.row(slot as int, width as int, height as int));
                assert(scene@ =~= self.header(width as int, height as int) + self.rows(
                    slot + 1,
                    width as int,
                    height as int,
                ));
            }
            slot += 1;
        }

        let ghost listed = scene@;
        let arrow_x: i32 = width as i32 - 18;
        if has_scroll_up {
            scene.push(
                DrawCommand::FillTriangle {
                    x0: arrow_x,
                    y0: ITEM_START_Y - 2,
                    x1: arrow_x + 8,
                    y1: ITEM_START_Y - 2,
                    x2: arrow_x + 4,
                    y2: ITEM_START_Y - 10,
                    color: FOREGROUND,
                },
            );
        }
        if has_scroll_down {
            let top: i32 = height as i32 - 12;
            scene.push(
                DrawCommand::FillTriangle {
                    x0: arrow_x,
                    y0: top,
                    x1: arrow_x + 8,
                    y1: top,
                    x2: arrow_x + 4,
                    y2: top + 8,
                    color: FOREGROUND,
                },
            );
        }
        assert(scene@ =~= listed + self.arrows(width as int, height as int));
        scene
    }
}

impl<'a> crate::ui::view::View for Menu<'a> {
    open spec fn valid(&self) -> bool {
        self.wf()
    }

    open spec fn handled(
        &self,
        action: Action,
        after: Menu<'a>,
        result: ViewResult<Menu<'a>>,
    ) -> bool {
        &&& after.title == self.title
        &&& after.items == self.items
        &&& after.visible == self.visible
        &&& (after.selected as int, after.scroll as int) == self.moved(action)
        &&& self.answers(action, result)
    }

    open spec fn draws(
        &self,
        before: Seq<Rgb565>,
        width: int,
        height: int,
        after: Seq<Rgb565>,
    ) -> bool {
        after == painted_all(before, width, height, self.scene(width, height))
    }

    /// Draws the menu: carries out the commands of [`Menu::scene`] on the
    /// surface, first to last.
    fn render(&self, buffer: &mut RenderBuffer)
        ensures
            final(buffer).pixels@ == painted_all(
                old(buffer).pixels@,
                old(buffer).width as int,
                old(buffer).height as int,
                self.scene(old(buffer).width as int, old(buffer).height as int),
            ),
    {
        let scene = self.layout(buffer.width, buffer.height);
        buffer.draw_all(&scene);
    }

    /// Reacts to one action. The selection and the window move as
    /// [`Menu::moved`] says, the result is what [`Menu::answers`] says, and
    /// nothing else of the menu changes.
    fn handle(&mut self, action: Action) -> (result: ViewResult<Menu<'a>>)
        ensures
            final(self).title == old(self).title,
            final(self).items == old(self).items,
            final(self).visible == old(self).visible,
            (final(self).selected as int, final(self).scroll as int) == old(self).moved(action),
            old(self).answers(action, result),
    {
        match action {
            Action::Up => {
                if self.selected > 0 {
                    self.selected -= 1;
                    if self.selected < self.scroll {
                        self.scroll = self.selected;
                    }
                }
                ViewResult::Nothing
            },
            Action::Down => {
                let count = self.items.len();
                if self.selected + 1 < count {
                    self.selected += 1;
                    if self.selected - self.scroll >= self.visible {
                        self.scroll = self.selected - (self.visible - 1);
                    }
                }
                ViewResult::Nothing
            },
            Action::Select => {
                if self.selected < self.items.len() {
                    match self.items[self.selected].action {
                        MenuAction::SubMenu(blueprint) => ViewResult::Push(Menu::open(blueprint)),
                        MenuAction::Exit => ViewResult::Exit,
                        MenuAction::Nothing => ViewResult::Nothing,
                    }
                } else {
                    ViewResult::Nothing
                }
            },
            Action::Back => ViewResult::Pop,
        }
    }
}

/// The selected row is among the rows drawn, on every surface high enough
/// for the scroll window.
pub proof fn lemma_selection_is_shown<'a>(menu: Menu<'a>, height: int)
    requires
        menu.wf(),
        menu.items@.len() > 0,
        menu.visible <= visible_rows(height),
    ensures
        menu.scroll <= menu.selected < menu.scroll + menu.rows_shown(height),
{
}

/// Going up from the first row changes nothing: the menu stays as it is and
/// asks nothing of the stack.
pub proof fn lemma_up_at_first_row<'a>(
    menu: Menu<'a>,
    after: Menu<'a>,
    result: ViewResult<Menu<'a>>,
)
    requires
        menu.selected == 0,
        menu.wf(),
        crate::ui::view::View::handled(&menu, Action::Up, after, result),
    ensures
        after == menu,
        result is Nothing,
{
}

/// Opening a submenu and then going back restores the stack: the parent is
/// on top again as it was left, the same row selected and the window where
/// it was, and the program goes on.
pub proof fn lemma_open_then_back<'a>(
    stack: Seq<Menu<'a>>,
    parent_after: Menu<'a>,
    parent_result: ViewResult<Menu<'a>>,
    child_after: Menu<'a>,
    child_result: ViewResult<Menu<'a>>,
)
    requires
        stack.len() > 0,
        stack.last().selected < stack.last().items@.len(),
        stack.last().items@[stack.last().selected as int].action is SubMenu,
        crate::ui::view::View::handled(
            &stack.last(),
            Action::Select,
            parent_after,
            parent_result,
        ),
        crate::ui::view::View::handled(
            &applied(stack.drop_last().push(parent_after), parent_result).0.last(),
            Action::Back,
            child_after,
            child_result,
        ),
    ensures
        applied(stack.drop_last().push(parent_after), parent_result).1,
        applied(stack.drop_last().push(parent_after), parent_result).0.len() == stack.len() + 1,
        applied(
            applied(stack.drop_last().push(parent_after), parent_result).0.drop_last().push(
                child_after,
            ),
            child_result,
        ) == (stack, true),
{
    let opened = applied(stack.drop_last().push(parent_after), parent_result).0;
    assert(parent_after == stack.last());
    assert(stack.drop_last().push(parent_after) =~= stack);
    assert(opened.drop_last() =~= stack);
    assert(opened.drop_last().push(child_after).drop_last() =~= stack);
}

} // verus!
