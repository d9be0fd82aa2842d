use macos_liquid_glass::drawable::{FLAG_COMMAND, FLAG_OPTION};
use macos_liquid_glass::menu::{main_menu, WINDOW_MENU_INDEX};

fn entries(bar: &macos_liquid_glass::menu::MainMenu, menu: usize) -> Vec<Option<(String, &'static str, &'static str, u64)>> {
    bar.menus[menu]
        .items
        .iter()
        .map(|e| e.as_ref().map(|i| (i.title.clone(), i.action, i.key, i.modifiers)))
        .collect()
}

#[test]
fn the_main_menu_has_the_four_standard_menus() {
    let bar = main_menu("Glass");
    let titles: Vec<&str> = bar.menus.iter().map(|m| m.title.as_str()).collect();
    assert_eq!(titles, ["Glass", "Edit", "View", "Window"]);
    assert_eq!(bar.windows_menu, WINDOW_MENU_INDEX);
    assert_eq!(bar.menus[bar.windows_menu].title, "Window");
}

#[test]
fn the_app_menu_names_the_app() {
    let bar = main_menu("Glass");
    assert_eq!(
        entries(&bar, 0),
        vec![
            Some(("Hide Glass".to_string(), "hide:", "h", FLAG_COMMAND)),
            Some(("Hide Others".to_string(), "hideOtherApplications:", "h", FLAG_COMMAND | FLAG_OPTION)),
            Some(("Show All".to_string(), "unhideAllApplications:", "", FLAG_COMMAND)),
            None,
            Some(("Quit Glass".to_string(), "terminate:", "q", FLAG_COMMAND)),
        ]
    );
}

#[test]
fn edit_view_and_window_reach_the_responder_chain() {
    let bar = main_menu("Glass");
    assert_eq!(
        entries(&bar, 1),
        vec![
            Some(("Copy".to_string(), "copy:", "c", FLAG_COMMAND)),
            Some(("Paste".to_string(), "paste:", "v", FLAG_COMMAND)),
        ]
    );
    assert_eq!(
        entries(&bar, 2),
        vec![
            Some(("Bigger".to_string(), "zoomIn:", "+", FLAG_COMMAND)),
            Some(("Smaller".to_string(), "zoomOut:", "-", FLAG_COMMAND)),
            Some(("Actual Size".to_string(), "zoomActual:", "0", FLAG_COMMAND)),
        ]
    );
    assert_eq!(
        entries(&bar, 3),
        vec![
            Some(("Minimize".to_string(), "performMiniaturize:", "m", FLAG_COMMAND)),
            Some(("Zoom".to_string(), "performZoom:", "", FLAG_COMMAND)),
            None,
            Some(("Close".to_string(), "performClose:", "w", FLAG_COMMAND)),
        ]
    );
}
