use openpager::display::RenderBuffer;
use openpager::menus::{create_about_menu, create_inbox, create_main_menu, create_messages_menu,
    create_settings_menu};
use openpager::pager::step;
use openpager::platform::Action;
use openpager::ui::{Menu, MenuAction, MenuItem, StatusBar, View, ViewStack};

fn labels(menu: &Menu) -> Vec<&'static str> {
    menu.items.iter().map(|item| item.label).collect()
}

/// A surface with the status bar and then the menu drawn on it.
fn frame(bar: &StatusBar, menu: Option<&Menu>, battery: u8, charging: bool) -> Vec<u16> {
    let mut surface = RenderBuffer::new(480, 222);
    surface.clear(0x1234);
    bar.render(&mut surface, battery, charging);
    if let Some(menu) = menu {
        menu.render(&mut surface);
    }
    surface.pixels
}

fn blank() -> RenderBuffer {
    let mut surface = RenderBuffer::new(480, 222);
    surface.clear(0x1234);
    surface
}

#[test]
fn the_pagers_menus() {
    let inbox = create_inbox();
    assert_eq!(inbox.title, "Inbox");
    assert_eq!(
        labels(&inbox),
        [
            "Server alert: CPU 95%",
            "Backup completed",
            "New user registered",
            "Payment received",
            "Disk space warning",
            "SSL cert expiring",
            "Deploy successful",
            "Error: DB timeout",
            "Weekly report ready",
            "Security scan done",
            "New comment on #42",
            "Build failed: main",
        ]
    );
    assert!(inbox.items.iter().all(|item| matches!(item.action, MenuAction::Nothing)));

    let messages = create_messages_menu(&inbox);
    assert_eq!(messages.title, "Messages");
    assert_eq!(labels(&messages), ["Inbox", "Sent", "Drafts"]);
    assert!(matches!(messages.items[0].action, MenuAction::SubMenu(menu) if menu.title == "Inbox"));
    assert!(matches!(messages.items[1].action, MenuAction::Nothing));
    assert!(matches!(messages.items[2].action, MenuAction::Nothing));

    let settings = create_settings_menu();
    assert_eq!(settings.title, "Settings");
    assert_eq!(labels(&settings), ["Display", "Sound", "Network"]);

    let about = create_about_menu();
    assert_eq!(about.title, "About");
    assert_eq!(labels(&about), ["Version: 0.1.0", "License: MIT"]);

    let main = create_main_menu(&messages, &settings, &about);
    assert_eq!(main.title, "Main Menu");
    assert_eq!(labels(&main), ["Messages", "Settings", "About", "Exit"]);
    assert!(matches!(main.items[0].action, MenuAction::SubMenu(menu) if menu.title == "Messages"));
    assert!(matches!(main.items[1].action, MenuAction::SubMenu(menu) if menu.title == "Settings"));
    assert!(matches!(main.items[2].action, MenuAction::SubMenu(menu) if menu.title == "About"));
    assert!(matches!(main.items[3].action, MenuAction::Exit));
    for menu in [&inbox, &messages, &settings, &about, &main] {
        assert_eq!((menu.selected, menu.scroll, menu.visible), (0, 0, 5));
        assert!(menu.is_well_formed());
    }
}

#[test]
fn an_idle_turn_draws_the_bar_and_the_top_view() {
    let bar = StatusBar::default();
    let root = Menu::new("Root", vec![MenuItem { label: "only", action: MenuAction::Nothing }]);
    let expected = frame(&bar, Some(&root), 80, true);
    let mut views = ViewStack::new(root);
    let mut surface = blank();
    assert!(step(&mut views, &bar, None, &mut surface, 80, true));
    assert_eq!(surface.pixels, expected);
    assert_eq!(views.depth(), 1);
}

#[test]
fn a_turn_applies_the_action_before_it_draws() {
    let bar = StatusBar::default();
    let inbox = create_inbox();
    let mut views = ViewStack::new(create_messages_menu(&inbox));
    let mut surface = blank();

    assert!(step(&mut views, &bar, Some(Action::Down), &mut surface, 100, false));
    let mut moved = create_messages_menu(&inbox);
    moved.handle(Action::Down);
    assert_eq!(surface.pixels, frame(&bar, Some(&moved), 100, false));
    assert_ne!(surface.pixels, frame(&bar, Some(&create_messages_menu(&inbox)), 100, false));

    assert!(step(&mut views, &bar, Some(Action::Up), &mut surface, 100, false));
    let mut surface = blank();
    assert!(step(&mut views, &bar, Some(Action::Select), &mut surface, 100, false));
    assert_eq!(views.depth(), 2);
    assert_eq!(surface.pixels, frame(&bar, Some(&create_inbox()), 100, false));
}

#[test]
fn a_walk_through_the_pagers_menus() {
    let bar = StatusBar::default();
    let inbox = create_inbox();
    let messages = create_messages_menu(&inbox);
    let settings = create_settings_menu();
    let about = create_about_menu();
    let mut views = ViewStack::new(create_main_menu(&messages, &settings, &about));
    let mut surface = RenderBuffer::default_resolution();
    let mut turn = |views: &mut ViewStack<Menu>, action| {
        step(views, &bar, Some(action), &mut surface, 100, false)
    };

    assert!(turn(&mut views, Action::Down));
    assert!(turn(&mut views, Action::Down));
    assert!(turn(&mut views, Action::Select));
    assert_eq!(views.top().map(|menu| menu.title), Some("About"));
    assert!(turn(&mut views, Action::Back));
    assert_eq!(views.top().map(|menu| (menu.title, menu.selected)), Some(("Main Menu", 2)));
    assert!(turn(&mut views, Action::Up));
    assert!(turn(&mut views, Action::Up));
    assert!(turn(&mut views, Action::Select));
    assert!(turn(&mut views, Action::Select));
    assert_eq!(views.depth(), 3);
    assert_eq!(views.top().map(|menu| menu.title), Some("Inbox"));
    for _ in 0..7 {
        assert!(turn(&mut views, Action::Down));
    }
    assert_eq!(views.top().map(|menu| (menu.selected, menu.scroll)), Some((7, 3)));
    assert!(turn(&mut views, Action::Select));
    assert!(turn(&mut views, Action::Back));
    assert!(turn(&mut views, Action::Back));
    assert_eq!(views.top().map(|menu| (menu.title, menu.selected)), Some(("Main Menu", 0)));
    for _ in 0..3 {
        assert!(turn(&mut views, Action::Down));
    }
    assert!(!turn(&mut views, Action::Select));
    assert_eq!(views.depth(), 1);
}

#[test]
fn popping_the_last_view_draws_the_bar_alone() {
    let bar = StatusBar { signal: 1, connected: false };
    let mut views = ViewStack::new(create_about_menu());
    let mut surface = blank();
    assert!(step(&mut views, &bar, Some(Action::Back), &mut surface, 15, false));
    assert!(views.is_empty());
    assert_eq!(surface.pixels, frame(&bar, None, 15, false));
    let mut surface = blank();
    assert!(step(&mut views, &bar, Some(Action::Down), &mut surface, 15, false));
    assert_eq!(surface.pixels, frame(&bar, None, 15, false));
    let mut surface = blank();
    assert!(step(&mut views, &bar, None, &mut surface, 15, false));
    assert_eq!(surface.pixels, frame(&bar, None, 15, false));
}

#[test]
fn exit_ends_the_turn_without_a_frame() {
    let bar = StatusBar::default();
    let leaf = Menu::new("Leaf", vec![MenuItem { label: "Quit", action: MenuAction::Exit }]);
    let root = Menu::new("Root", vec![MenuItem { label: "Leaf", action: MenuAction::SubMenu(&leaf) }]);
    let mut views = ViewStack::new(root);
    let mut surface = blank();
    assert!(step(&mut views, &bar, Some(Action::Select), &mut surface, 100, false));
    let before = surface.pixels.clone();
    assert!(!step(&mut views, &bar, Some(Action::Select), &mut surface, 100, false));
    assert_eq!(views.depth(), 2);
    assert_eq!(surface.pixels, before);
}

/// A view of another kind: a coloured page that counts what it is asked.
struct Page {
    color: u16,
    asked: u32,
}

impl View for Page {
    fn render(&self, buffer: &mut RenderBuffer) {
        buffer.fill_rect(0, 24, buffer.width, 8, self.color);
    }

    fn handle(&mut self, action: Action) -> openpager::ui::ViewResult<Self> {
        self.asked += 1;
        match action {
            Action::Up => openpager::ui::ViewResult::Nothing,
            Action::Down => openpager::ui::ViewResult::Exit,
            Action::Select => {
                openpager::ui::ViewResult::Push(Page { color: self.color + 1, asked: 0 })
            }
            Action::Back => openpager::ui::ViewResult::Pop,
        }
    }
}

#[test]
fn a_view_of_another_kind_on_the_stack() {
    let bar = StatusBar::default();
    let mut views = ViewStack::new(Page { color: 7, asked: 0 });
    let mut surface = RenderBuffer::new(64, 40);
    assert!(step(&mut views, &bar, Some(Action::Select), &mut surface, 100, false));
    assert!(step(&mut views, &bar, Some(Action::Up), &mut surface, 100, false));
    assert_eq!(views.depth(), 2);
    assert_eq!((views.views[0].asked, views.views[1].asked), (1, 1));
    assert_eq!(surface.get_pixel(0, 24), 8);
    assert_eq!(surface.get_pixel(63, 31), 8);
    assert_eq!(surface.get_pixel(0, 32), 0);
    assert!(step(&mut views, &bar, Some(Action::Back), &mut surface, 100, false));
    assert_eq!(views.depth(), 1);
    assert_eq!(surface.get_pixel(0, 24), 7);
    assert!(!step(&mut views, &bar, Some(Action::Down), &mut surface, 100, false));
    assert_eq!(views.views[0].asked, 2);
}
