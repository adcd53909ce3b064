//! The pager's own menus: the main menu and what hangs under it.

use crate::ui::menu::{Menu, MenuAction, MenuItem, DEFAULT_VISIBLE};
use vstd::prelude::*;

verus! {

/// A row that does nothing when selected.
pub open spec fn plain(label: &'static str) -> MenuItem<'static> {
    MenuItem { label, action: MenuAction::Nothing }
}

/// A row that opens a fresh copy of `menu`.
pub open spec fn opens<'a>(label: &'static str, menu: &'a Menu<'a>) -> MenuItem<'a> {
    MenuItem { label, action: MenuAction::SubMenu(menu) }
}

/// Whether `menu` is new, with the given title and rows.
pub open spec fn is_new<'a>(menu: Menu<'a>, title: &'static str, items: Seq<MenuItem<'a>>) -> bool {
    &&& menu.wf()
    &&& menu.title == title
    &&& menu.items@ =~= items
    &&& menu.selected == 0
    &&& menu.scroll == 0
    &&& menu.visible == DEFAULT_VISIBLE
}

/// The main menu: the three submenus and the way out.
pub fn create_main_menu<'a>(
    messages: &'a Menu<'a>,
    settings: &'a Menu<'a>,
    about: &'a Menu<'a>,
) -> (menu: Menu<'a>)
    ensures
        is_new(
            menu,
            "Main Menu",
            seq![
                opens("Messages", messages),
                opens("Settings", settings),
                opens("About", about),
                (MenuItem { label: "Exit", action: MenuAction::Exit }),
            ],
        ),
{
    let mut items: Vec<MenuItem<'a>> = Vec::new();
    items.push(MenuItem { label: "Messages", action: MenuAction::SubMenu(messages) });
    items.push(MenuItem { label: "Settings", action: MenuAction::SubMenu(settings) });
    items.push(MenuItem { label: "About", action: MenuAction::SubMenu(about) });
    items.push(MenuItem { label: "Exit", action: MenuAction::Exit });
    Menu::new("Main Menu", items)
}

/// The messages menu: the inbox, and two folders that are not there yet.
pub fn create_messages_menu<'a>(inbox: &'a Menu<'a>) -> (menu: Menu<'a>)
    ensures
        is_new(menu, "Messages", seq![opens("Inbox", inbox), plain("Sent"), plain("Drafts")]),
{
    let mut items: Vec<MenuItem<'a>> = Vec::new();
    items.push(MenuItem { label: "Inbox", action: MenuAction::SubMenu(inbox) });
    items.push(MenuItem { label: "Sent", action: MenuAction::Nothing });
    items.push(MenuItem { label: "Drafts", action: MenuAction::Nothing });
    Menu::new("Messages", items)
}

/// The inbox: a dozen messages, longer than any window, to scroll through.
pub fn create_inbox() -> (menu: Menu<'static>)
    ensures
        is_new(
            menu,
            "Inbox",
            seq![
                plain("Server alert: CPU 95%"),
                plain("Backup completed"),
                plain("New user registered"),
                plain("Payment received"),
                plain("Disk space warning"),
                plain("SSL cert expiring"),
                plain("Deploy successful"),
                plain("Error: DB timeout"),
                plain("Weekly report ready"),
                plain("Security scan done"),
                plain("New comment on #42"),
                plain("Build failed: main"),
            ],
        ),
{
    let mut items: Vec<MenuItem<'static>> = Vec::new();
    items.push(MenuItem { label: "Server alert: CPU 95%", action: MenuAction::Nothing });
    items.push(MenuItem { label: "Backup completed", action: MenuAction::Nothing });
    items.push(MenuItem { label: "New user registered", action: MenuAction::Nothing });
    items.push(MenuItem { label: "Payment received", action: MenuAction::Nothing });
    items.push(MenuItem { label: "Disk space warning", action: MenuAction::Nothing });
    items.push(MenuItem { label: "SSL cert expiring", action: MenuAction::Nothing });
    items.push(MenuItem { label: "Deploy successful", action: MenuAction::Nothing });
    items.push(MenuItem { label: "Error: DB timeout", action: MenuAction::Nothing });
    items.push(MenuItem { label: "Weekly report ready", action: MenuAction::Nothing });
    items.push(MenuItem { label: "Security scan done", action: MenuAction::Nothing });
    items.push(MenuItem { label: "New comment on #42", action: MenuAction::Nothing });
    items.push(MenuItem { label: "Build failed: main", action: MenuAction::Nothing });
    Menu::new("Inbox", items)
}

/// The settings menu.
pub fn create_settings_menu() -> (menu: Menu<'static>)
    ensures
        is_new(menu, "Settings", seq![plain("Display"), plain("Sound"), plain("Network")]),
{
    let mut items: Vec<MenuItem<'static>> = Vec::new();
    items.push(MenuItem { label: "Display", action: MenuAction::Nothing });
    items.push(MenuItem { label: "Sound", action: MenuAction::Nothing });
    items.push(MenuItem { label: "Network", action: MenuAction::Nothing });
    Menu::new("Settings", items)
}

/// The about menu.
pub fn create_about_menu() -> (menu: Menu<'static>)
    ensures
        is_new(menu, "About", seq![plain("Version: 0.1.0"), plain("License: MIT")]),
{
    let mut items: Vec<MenuItem<'static>> = Vec::new();
    items.push(MenuItem { label: "Version: 0.1.0", action: MenuAction::Nothing });
    items.push(MenuItem { label: "License: MIT", action: MenuAction::Nothing });
    Menu::new("About", items)
}

} // verus!
