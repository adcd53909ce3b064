use openpager::platform::Action;
use openpager::ui::colors::{BACKGROUND, COMMENT, CYAN, FOREGROUND, PURPLE};
use openpager::ui::menu::{DEFAULT_VISIBLE, ITEM_HEIGHT, ITEM_START_Y, SEPARATOR_Y, TITLE_Y};
use openpager::ui::{DrawCommand, Font, Menu, MenuAction, MenuItem, View, ViewResult, ViewStack};

const LABELS: [&str; 12] = [
    "zero", "one", "two", "three", "four", "five", "six", "seven", "eight", "nine", "ten",
    "eleven",
];

fn plain<'a>(count: usize) -> Menu<'a> {
    let items = (0..count)
        .map(|i| MenuItem { label: LABELS[i], action: MenuAction::Nothing })
        .collect();
    Menu::new("List", items)
}

fn text(text: &'static str, y: i32, color: u32) -> DrawCommand {
    DrawCommand::Text { text, x: 10, y, font: Font::Mono10x20, color }
}

#[test]
fn layout_constants() {
    assert_eq!(ITEM_HEIGHT, 22);
    assert_eq!(TITLE_Y, 40);
    assert_eq!(SEPARATOR_Y, 44);
    assert_eq!(ITEM_START_Y, 62);
    assert_eq!(DEFAULT_VISIBLE, 5);
}

#[test]
fn new_menu_starts_at_the_top() {
    let menu = plain(3);
    assert_eq!(menu.title, "List");
    assert_eq!(menu.items.len(), 3);
    assert_eq!(menu.selected, 0);
    assert_eq!(menu.scroll, 0);
    assert_eq!(menu.visible, 5);
}

#[test]
fn seven_downs_in_a_window_of_five() {
    let mut menu = plain(10);
    for _ in 0..7 {
        assert!(matches!(menu.handle(Action::Down), ViewResult::Nothing));
    }
    assert_eq!(menu.selected, 7);
    assert_eq!(menu.scroll, 3);
}

#[test]
fn down_follows_the_window_step_by_step() {
    let mut menu = plain(10);
    let expected = [(1, 0), (2, 0), (3, 0), (4, 0), (5, 1), (6, 2), (7, 3), (8, 4), (9, 5), (9, 5)];
    for (selected, scroll) in expected {
        menu.handle(Action::Down);
        assert_eq!((menu.selected, menu.scroll), (selected, scroll));
    }
}

#[test]
fn down_with_another_window() {
    let mut menu = plain(10);
    menu.visible = 3;
    for _ in 0..7 {
        menu.handle(Action::Down);
    }
    assert_eq!((menu.selected, menu.scroll), (7, 5));
    let mut menu = plain(10);
    menu.visible = 1;
    for _ in 0..4 {
        menu.handle(Action::Down);
    }
    assert_eq!((menu.selected, menu.scroll), (4, 4));
}

#[test]
fn up_at_the_first_row_is_a_no_op() {
    let mut menu = plain(10);
    assert!(matches!(menu.handle(Action::Up), ViewResult::Nothing));
    assert_eq!(menu.selected, 0);
    assert_eq!(menu.scroll, 0);
}

#[test]
fn up_pulls_the_window_along() {
    let mut menu = plain(10);
    for _ in 0..7 {
        menu.handle(Action::Down);
    }
    let expected = [(6, 3), (5, 3), (4, 3), (3, 3), (2, 2), (1, 1), (0, 0), (0, 0)];
    for (selected, scroll) in expected {
        assert!(matches!(menu.handle(Action::Up), ViewResult::Nothing));
        assert_eq!((menu.selected, menu.scroll), (selected, scroll));
    }
}

#[test]
fn down_at_the_last_row_is_a_no_op() {
    let mut menu = plain(2);
    menu.handle(Action::Down);
    menu.handle(Action::Down);
    assert_eq!((menu.selected, menu.scroll), (1, 0));
    let mut single = plain(1);
    single.handle(Action::Down);
    assert_eq!((single.selected, single.scroll), (0, 0));
}

#[test]
fn empty_menu_takes_every_action() {
    let mut menu = plain(0);
    assert!(matches!(menu.handle(Action::Down), ViewResult::Nothing));
    assert!(matches!(menu.handle(Action::Up), ViewResult::Nothing));
    assert!(matches!(menu.handle(Action::Select), ViewResult::Nothing));
    assert!(matches!(menu.handle(Action::Back), ViewResult::Pop));
    assert_eq!((menu.selected, menu.scroll), (0, 0));
    assert_eq!(menu.layout(480, 222).len(), 3);
}

#[test]
fn select_does_what_the_row_says() {
    let inbox = Menu::new(
        "Inbox",
        vec![
            MenuItem { label: "first", action: MenuAction::Nothing },
            MenuItem { label: "second", action: MenuAction::Exit },
        ],
    );
    let mut menu = Menu::new(
        "Main",
        vec![
            MenuItem { label: "Inbox", action: MenuAction::SubMenu(&inbox) },
            MenuItem { label: "Exit", action: MenuAction::Exit },
            MenuItem { label: "About", action: MenuAction::Nothing },
        ],
    );
    match menu.handle(Action::Select) {
        ViewResult::Push(opened) => {
            assert_eq!(opened.title, "Inbox");
            assert_eq!(opened.items.len(), 2);
            assert_eq!(opened.items[0].label, "first");
            assert_eq!(opened.items[1].label, "second");
            assert!(matches!(opened.items[0].action, MenuAction::Nothing));
            assert!(matches!(opened.items[1].action, MenuAction::Exit));
            assert_eq!((opened.selected, opened.scroll, opened.visible), (0, 0, 5));
        },
        _ => panic!("selecting a submenu row must push"),
    }
    assert_eq!((menu.selected, menu.scroll), (0, 0));
    menu.handle(Action::Down);
    assert!(matches!(menu.handle(Action::Select), ViewResult::Exit));
    menu.handle(Action::Down);
    assert!(matches!(menu.handle(Action::Select), ViewResult::Nothing));
    assert_eq!((menu.selected, menu.scroll), (2, 0));
}

#[test]
fn a_submenu_opens_fresh_each_time() {
    let mut blueprint = plain(8);
    blueprint.selected = 6;
    blueprint.scroll = 4;
    blueprint.visible = 3;
    let mut menu = Menu::new(
        "Main",
        vec![MenuItem { label: "List", action: MenuAction::SubMenu(&blueprint) }],
    );
    for _ in 0..2 {
        match menu.handle(Action::Select) {
            ViewResult::Push(mut opened) => {
                assert_eq!((opened.selected, opened.scroll, opened.visible), (0, 0, 5));
                assert_eq!(opened.items.len(), 8);
                opened.handle(Action::Down);
                assert_eq!(opened.selected, 1);
            },
            _ => panic!("selecting a submenu row must push"),
        }
    }
    let opened = Menu::open(&blueprint);
    assert_eq!(opened.title, "List");
    assert_eq!(opened.items.len(), 8);
    assert_eq!((opened.selected, opened.scroll, opened.visible), (0, 0, 5));
}

#[test]
fn back_always_pops() {
    let mut menu = plain(10);
    for _ in 0..6 {
        menu.handle(Action::Down);
    }
    assert!(matches!(menu.handle(Action::Back), ViewResult::Pop));
    assert_eq!((menu.selected, menu.scroll), (6, 2));
}

#[test]
fn visible_rows_round_up() {
    let menu = plain(1);
    assert_eq!(menu.visible_items(222), 8);
    assert_eq!(menu.visible_items(0), 1);
    assert_eq!(menu.visible_items(62), 1);
    assert_eq!(menu.visible_items(63), 1);
    assert_eq!(menu.visible_items(84), 1);
    assert_eq!(menu.visible_items(85), 2);
    assert_eq!(menu.visible_items(106), 2);
    assert_eq!(menu.visible_items(107), 3);
    assert_eq!(menu.visible_items(i32::MAX as u32), 97_612_891);
}

#[test]
fn render_of_a_short_menu() {
    let mut menu = plain(3);
    menu.handle(Action::Down);
    let scene = menu.layout(480, 222);
    let expected = vec![
        DrawCommand::FillRect { x: 0, y: 24, width: 480, height: 198, color: BACKGROUND },
        DrawCommand::Text { text: "List", x: 10, y: 40, font: Font::Mono10x20, color: PURPLE },
        DrawCommand::FillRect { x: 0, y: 44, width: 480, height: 2, color: COMMENT },
        text("zero", 62, FOREGROUND),
        DrawCommand::FillRect { x: 5, y: 69, width: 470, height: 20, color: CYAN },
        text("one", 84, BACKGROUND),
        text("two", 106, FOREGROUND),
    ];
    assert_eq!(scene, expected);
}

#[test]
fn render_of_a_long_menu_shows_the_down_arrow() {
    let menu = plain(12);
    let scene = menu.layout(480, 222);
    assert_eq!(scene.len(), 3 + 9 + 1);
    assert_eq!(scene[3], DrawCommand::FillRect { x: 5, y: 47, width: 445, height: 20, color: CYAN });
    assert_eq!(scene[4], text("zero", 62, BACKGROUND));
    for slot in 1..8 {
        assert_eq!(scene[4 + slot], text(LABELS[slot], 62 + 22 * slot as i32, FOREGROUND));
    }
    assert_eq!(
        scene[12],
        DrawCommand::FillTriangle {
            x0: 462,
            y0: 210,
            x1: 470,
            y1: 210,
            x2: 466,
            y2: 218,
            color: FOREGROUND,
        }
    );
}

#[test]
fn render_of_a_scrolled_menu_shows_both_arrows() {
    let mut menu = plain(12);
    for _ in 0..5 {
        menu.handle(Action::Down);
    }
    assert_eq!((menu.selected, menu.scroll), (5, 1));
    let scene = menu.layout(480, 222);
    assert_eq!(scene.len(), 3 + 9 + 2);
    assert_eq!(scene[3], text("one", 62, FOREGROUND));
    assert_eq!(scene[7], DrawCommand::FillRect { x: 5, y: 135, width: 445, height: 20, color: CYAN });
    assert_eq!(scene[8], text("five", 150, BACKGROUND));
    assert_eq!(scene[11], text("eight", 216, FOREGROUND));
    assert_eq!(
        scene[12],
        DrawCommand::FillTriangle {
            x0: 462,
            y0: 60,
            x1: 470,
            y1: 60,
            x2: 466,
            y2: 52,
            color: FOREGROUND,
        }
    );
    assert!(matches!(scene[13], DrawCommand::FillTriangle { y0: 210, y2: 218, .. }));
}

#[test]
fn render_at_the_end_of_the_list_shows_the_up_arrow_only() {
    let mut menu = plain(12);
    for _ in 0..11 {
        menu.handle(Action::Down);
    }
    assert_eq!((menu.selected, menu.scroll), (11, 7));
    let scene = menu.layout(480, 222);
    assert_eq!(scene.len(), 3 + 6 + 1);
    assert_eq!(scene[3], text("seven", 62, FOREGROUND));
    assert_eq!(scene[8], text("eleven", 150, BACKGROUND));
    assert!(matches!(scene[9], DrawCommand::FillTriangle { y0: 60, y2: 52, .. }));
}

#[test]
fn render_on_a_tiny_surface_clamps() {
    let menu = plain(3);
    let scene = menu.layout(8, 10);
    assert_eq!(scene[0], DrawCommand::FillRect { x: 0, y: 24, width: 8, height: 0, color: BACKGROUND });
    assert_eq!(scene[3], DrawCommand::FillRect { x: 5, y: 47, width: 0, height: 20, color: CYAN });
    assert_eq!(scene[4], text("zero", 62, BACKGROUND));
    assert_eq!(
        scene[5],
        DrawCommand::FillTriangle {
            x0: -10,
            y0: -2,
            x1: -2,
            y1: -2,
            x2: -6,
            y2: 6,
            color: FOREGROUND,
        }
    );
    assert_eq!(scene.len(), 6);
}

#[test]
fn stack_starts_with_the_root() {
    let stack = ViewStack::new(plain(3));
    assert_eq!(stack.depth(), 1);
    assert!(!stack.is_empty());
    assert_eq!(stack.top().map(|menu| menu.title), Some("List"));
}

#[test]
fn stack_applies_results() {
    let mut stack = ViewStack::new(plain(3));
    assert!(stack.apply(ViewResult::Nothing));
    assert_eq!(stack.depth(), 1);
    assert!(stack.apply(ViewResult::Push(Menu::new("Second", Vec::new()))));
    assert_eq!(stack.depth(), 2);
    assert_eq!(stack.top().map(|menu| menu.title), Some("Second"));
    assert!(!stack.apply(ViewResult::Exit));
    assert_eq!(stack.depth(), 2);
    assert!(stack.apply(ViewResult::Pop));
    assert_eq!(stack.top().map(|menu| menu.title), Some("List"));
    assert!(!stack.apply(ViewResult::Pop));
    assert!(stack.is_empty());
    assert!(stack.top().is_none());
    assert!(!stack.apply(ViewResult::Pop));
    assert!(stack.is_empty());
    assert!(!stack.dispatch(Action::Down));
    assert!(stack.is_empty());
}

#[test]
fn submenu_then_back_restores_the_parent() {
    let inbox = plain(12);
    let settings = plain(2);
    let root = Menu::new(
        "Main",
        vec![
            MenuItem { label: "a", action: MenuAction::Nothing },
            MenuItem { label: "b", action: MenuAction::Nothing },
            MenuItem { label: "c", action: MenuAction::Nothing },
            MenuItem { label: "d", action: MenuAction::Nothing },
            MenuItem { label: "e", action: MenuAction::SubMenu(&settings) },
            MenuItem { label: "f", action: MenuAction::Nothing },
            MenuItem { label: "Inbox", action: MenuAction::SubMenu(&inbox) },
            MenuItem { label: "Exit", action: MenuAction::Exit },
        ],
    );
    let mut stack = ViewStack::new(root);
    for _ in 0..6 {
        assert!(stack.dispatch(Action::Down));
    }
    let parent = stack.top().map(|menu| (menu.selected, menu.scroll));
    assert_eq!(parent, Some((6, 2)));

    assert!(stack.dispatch(Action::Select));
    assert_eq!(stack.depth(), 2);
    assert_eq!(stack.top().map(|menu| (menu.title, menu.selected, menu.scroll)), Some(("List", 0, 0)));
    assert_eq!((stack.views[0].selected, stack.views[0].scroll), (6, 2));
    for _ in 0..9 {
        assert!(stack.dispatch(Action::Down));
    }
    assert_eq!(stack.top().map(|menu| (menu.selected, menu.scroll)), Some((9, 5)));
    assert_eq!((stack.views[0].selected, stack.views[0].scroll), (6, 2));

    assert!(stack.dispatch(Action::Back));
    assert_eq!(stack.depth(), 1);
    assert_eq!(stack.top().map(|menu| (menu.title, menu.selected, menu.scroll)), Some(("Main", 6, 2)));

    assert!(stack.dispatch(Action::Down));
    assert!(!stack.dispatch(Action::Select));
    assert_eq!(stack.depth(), 1);
}

#[test]
fn back_at_the_root_ends_the_program() {
    let mut stack = ViewStack::new(plain(3));
    assert!(!stack.dispatch(Action::Back));
    assert!(stack.is_empty());
}

#[test]
fn exit_ends_the_program_at_any_depth() {
    let leaf = Menu::new("Leaf", vec![MenuItem { label: "Quit", action: MenuAction::Exit }]);
    let middle = Menu::new("Middle", vec![MenuItem { label: "Leaf", action: MenuAction::SubMenu(&leaf) }]);
    let root = Menu::new("Root", vec![MenuItem { label: "Middle", action: MenuAction::SubMenu(&middle) }]);
    let mut stack = ViewStack::new(root);
    assert!(stack.dispatch(Action::Select));
    assert!(stack.dispatch(Action::Select));
    assert_eq!(stack.depth(), 3);
    assert!(!stack.dispatch(Action::Select));
    assert_eq!(stack.depth(), 3);
}
