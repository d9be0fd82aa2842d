//! The application's main menu: the menus every macOS app carries, wired to
//! the standard responder-chain actions, so Cmd-Q quits, Cmd-W closes the
//! window, Cmd-M minimises, and Cmd-C / Cmd-V reach the first responder's
//! `copy:` and `paste:`.
//!
//! This module decides the layout; the host builds the `NSMenu`s from it.

use vstd::prelude::*;

use crate::drawable::{FLAG_COMMAND, FLAG_OPTION};

verus! {

/// One item: its title, the action the responder chain receives, the key
/// equivalent (`""` for none) and the modifier mask held with it.
#[derive(Debug, Clone)]
pub struct MenuItem {
    /// The title shown.
    pub title: String,
    /// The selector sent down the responder chain.
    pub action: &'static str,
    /// The key equivalent, or `""` for none.
    pub key: &'static str,
    /// The modifier flags the key equivalent needs.
    pub modifiers: u64,
}

/// One menu: its title and its items, `None` standing for a separator.
#[derive(Debug, Clone)]
pub struct Menu {
    /// The title shown in the menu bar.
    pub title: String,
    /// The items, top to bottom; `None` is a separator.
    pub items: Vec<Option<MenuItem>>,
}

/// The main menu bar.
#[derive(Debug, Clone)]
pub struct MainMenu {
    /// The menus, left to right.
    pub menus: Vec<Menu>,
    /// Which of them is registered as the windows menu.
    pub windows_menu: usize,
}

/// The abstract value of an item: title, action, key, modifiers.
pub type ItemModel = (Seq<char>, Seq<char>, Seq<char>, u64);

/// The abstract value of a menu: title and items.
pub type MenuModel = (Seq<char>, Seq<Option<ItemModel>>);

/// The abstract value of an item.
pub open spec fn item_model(item: MenuItem) -> ItemModel {
    (item.title@, item.action@, item.key@, item.modifiers)
}

/// The abstract value of an optional item.
pub open spec fn entry_model(entry: Option<MenuItem>) -> Option<ItemModel> {
    match entry {
        Some(item) => Some(item_model(item)),
        None => None,
    }
}

/// The abstract value of a menu.
pub open spec fn menu_model(menu: Menu) -> MenuModel {
    (menu.title@, menu.items@.map_values(|e: Option<MenuItem>| entry_model(e)))
}

/// The abstract value of each menu, in order.
pub open spec fn menus_model(menus: Seq<Menu>) -> Seq<MenuModel> {
    menus.map_values(|m: Menu| menu_model(m))
}

/// An item with the Command key.
pub open spec fn cmd_item(title: Seq<char>, action: Seq<char>, key: Seq<char>) -> Option<ItemModel> {
    Some((title, action, key, FLAG_COMMAND))
}

/// The menus of the main menu of an app called `name`: the app menu (hide,
/// hide others, show all, quit), Edit (copy, paste), View (bigger, smaller,
/// actual size) and Window (minimize, zoom, close).
pub open spec fn main_menu_layout(name: Seq<char>) -> Seq<MenuModel> {
    seq![
        (name, seq![
            cmd_item("Hide "@ + name, "hide:"@, "h"@),
            Some(("Hide Others"@, "hideOtherApplications:"@, "h"@, FLAG_COMMAND | FLAG_OPTION)),
            cmd_item("Show All"@, "unhideAllApplications:"@, ""@),
            None,
            cmd_item("Quit "@ + name, "terminate:"@, "q"@),
        ]),
        ("Edit"@, seq![
            cmd_item("Copy"@, "copy:"@, "c"@),
            cmd_item("Paste"@, "paste:"@, "v"@),
        ]),
        ("View"@, seq![
            cmd_item("Bigger"@, "zoomIn:"@, "+"@),
            cmd_item("Smaller"@, "zoomOut:"@, "-"@),
            cmd_item("Actual Size"@, "zoomActual:"@, "0"@),
        ]),
        ("Window"@, seq![
            cmd_item("Minimize"@, "performMiniaturize:"@, "m"@),
            cmd_item("Zoom"@, "performZoom:"@, ""@),
            None,
            cmd_item("Close"@, "performClose:"@, "w"@),
        ]),
    ]
}

/// The position of the Window menu, which is also the windows menu.
pub const WINDOW_MENU_INDEX: usize = 3;

fn cmd(title: String, action: &'static str, key: &'static str) -> (entry: Option<MenuItem>)
    ensures
        entry_model(entry) == cmd_item(title@, action@, key@),
{
    Some(MenuItem { title, action, key, modifiers: FLAG_COMMAND })
}

fn prefixed(prefix: &str, name: &str) -> (title: String)
    ensures
        title@ == prefix@ + name@,
{
    let mut title = String::from_str(prefix);
    title.append(name);
    title
}

fn menu(title: String, items: Vec<Option<MenuItem>>, expected: Ghost<Seq<Option<ItemModel>>>) -> (m: Menu)
    requires
        items@.len() == expected@.len(),
        forall|i: int| 0 <= i < items@.len() ==> entry_model(#[trigger] items@[i]) == expected@[i],
    ensures
        menu_model(m) == (title@, expected@),
{
    let m = Menu { title, items };
    assert(m.items@.map_values(|e: Option<MenuItem>| entry_model(e)) =~= expected@);
    m
}

/// The standard main menu for an app called `name`, with the Window menu
/// registered as the windows menu.
pub fn main_menu(name: &str) -> (bar: MainMenu)
    ensures
        menus_model(bar.menus@) == main_menu_layout(name@),
        bar.windows_menu == WINDOW_MENU_INDEX,
        bar.menus@.len() == 4,
        bar.menus@[WINDOW_MENU_INDEX as int].title@ == "Window"@,
{
    let layout = Ghost(main_menu_layout(name@));
    proof {
        reveal_strlit("Window");
    }

    let mut app_items: Vec<Option<MenuItem>> = Vec::new();
    app_items.push(cmd(prefixed("Hide ", name), "hide:", "h"));
    app_items.push(
        Some(
            MenuItem {
                title: String::from_str("Hide Others"),
                action: "hideOtherApplications:",
                key: "h",
                modifiers: FLAG_COMMAND | FLAG_OPTION,
            },
        ),
    );
    app_items.push(cmd(String::from_str("Show All"), "unhideAllApplications:", ""));
    app_items.push(None);
    app_items.push(cmd(prefixed("Quit ", name), "terminate:", "q"));
    let app_menu = menu(String::from_str(name), app_items, Ghost(layout@[0].1));

    let mut edit_items: Vec<Option<MenuItem>> = Vec::new();
    edit_items.push(cmd(String::from_str("Copy"), "copy:", "c"));
    edit_items.push(cmd(String::from_str("Paste"), "paste:", "v"));
    let edit = menu(String::from_str("Edit"), edit_items, Ghost(layout@[1].1));

    let mut view_items: Vec<Option<MenuItem>> = Vec::new();
    view_items.push(cmd(String::from_str("Bigger"), "zoomIn:", "+"));
    view_items.push(cmd(String::from_str("Smaller"), "zoomOut:", "-"));
    view_items.push(cmd(String::from_str("Actual Size"), "zoomActual:", "0"));
    let view = menu(String::from_str("View"), view_items, Ghost(layout@[2].1));

    let mut window_items: Vec<Option<MenuItem>> = Vec::new();
    window_items.push(cmd(String::from_str("Minimize"), "performMiniaturize:", "m"));
    window_items.push(cmd(String::from_str("Zoom"), "performZoom:", ""));
    window_items.push(None);
    window_items.push(cmd(String::from_str("Close"), "performClose:", "w"));
    let window = menu(String::from_str("Window"), window_items, Ghost(layout@[3].1));

    let mut menus: Vec<Menu> = Vec::new();
    menus.push(app_menu);
    menus.push(edit);
    menus.push(view);
    menus.push(window);
    assert(menus_model(menus@) =~= layout@);
    MainMenu { menus, windows_menu: WINDOW_MENU_INDEX }
}

} // verus!
