use vstd::prelude::*;

use crate::server::same_text;

verus! {

/// The id of the tray icon.
pub const TRAY_ID: &'static str = "main-tray";
/// The tray icon's tooltip.
pub const TRAY_TOOLTIP: &'static str = "System Monitor";
/// The label of the window that the tray shows and hides.
pub const WINDOW_LABEL: &'static str = "main";
/// The id and text of the menu item that shows the window.
pub const MENU_SHOW_ID: &'static str = "show";
pub const MENU_SHOW_TEXT: &'static str = "Show";
/// The id and text of the menu item that quits the application.
pub const MENU_QUIT_ID: &'static str = "quit";
pub const MENU_QUIT_TEXT: &'static str = "Quit";

/// What the tray does with the window (when there is one) or the application.
#[derive(Debug, Clone, Copy, PartialEq, Eq, Structural)]
pub enum WindowAction {
    Nothing,
    ShowAndFocus,
    Hide,
    Exit,
}

/// What choosing the tray menu item `id` does: `show` shows and focuses the
/// window, `quit` ends the application, anything else does nothing.
pub fn menu_action(id: &str) -> (a: WindowAction)
    ensures
        a == (if id@ == "show"@ {
            WindowAction::ShowAndFocus
        } else if id@ == "quit"@ {
            WindowAction::Exit
        } else {
            WindowAction::Nothing
        }),
{
    if same_text(id, MENU_SHOW_ID) {
        WindowAction::ShowAndFocus
    } else if same_text(id, MENU_QUIT_ID) {
        WindowAction::Exit
    } else {
        WindowAction::Nothing
    }
}

/// What a click on the tray icon does: releasing the left button hides the
/// window when it is visible and shows and focuses it otherwise; any other click
/// does nothing.
pub fn click_action(left_button: bool, released: bool, window_visible: bool) -> (a: WindowAction)
    ensures
        a == (if left_button && released {
            if window_visible {
                WindowAction::Hide
            } else {
                WindowAction::ShowAndFocus
            }
        } else {
            WindowAction::Nothing
        }),
{
    if left_button && released {
        if window_visible {
            WindowAction::Hide
        } else {
            WindowAction::ShowAndFocus
        }
    } else {
        WindowAction::Nothing
    }
}

} // verus!
