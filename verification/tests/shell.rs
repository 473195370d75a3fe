use sysmon::shell::{
    click_action, menu_action, WindowAction, MENU_QUIT_ID, MENU_QUIT_TEXT, MENU_SHOW_ID,
    MENU_SHOW_TEXT, TRAY_ID, TRAY_TOOLTIP, WINDOW_LABEL,
};

#[test]
fn menu_items_act() {
    assert_eq!(menu_action("show"), WindowAction::ShowAndFocus);
    assert_eq!(menu_action("quit"), WindowAction::Exit);
    assert_eq!(menu_action("Show"), WindowAction::Nothing);
    assert_eq!(menu_action(""), WindowAction::Nothing);
    assert_eq!(menu_action(MENU_SHOW_ID), WindowAction::ShowAndFocus);
    assert_eq!(menu_action(MENU_QUIT_ID), WindowAction::Exit);
}

#[test]
fn left_click_release_toggles_window() {
    assert_eq!(click_action(true, true, true), WindowAction::Hide);
    assert_eq!(click_action(true, true, false), WindowAction::ShowAndFocus);
    assert_eq!(click_action(true, false, false), WindowAction::Nothing);
    assert_eq!(click_action(false, true, true), WindowAction::Nothing);
}

#[test]
fn tray_texts() {
    assert_eq!(TRAY_ID, "main-tray");
    assert_eq!(TRAY_TOOLTIP, "System Monitor");
    assert_eq!(WINDOW_LABEL, "main");
    assert_eq!(MENU_SHOW_TEXT, "Show");
    assert_eq!(MENU_QUIT_TEXT, "Quit");
}
