//! The tray icon: its tooltip, the messages when it cannot be made, and which
//! of its menu items was chosen.
use vstd::prelude::*;
use vstd::string::StringExecFns;

use crate::app_state::{AppEvent, APP_NAME, HOTKEY_LABEL};

verus! {

/// The event that choosing the menu item with id `id` raises: the item that
/// shows the window, the item that quits, or none for any other id.
pub fn menu_event(id: &String, show_id: &String, exit_id: &String) -> (r: Option<AppEvent>)
    ensures
        id@ == show_id@ ==> r matches Some(AppEvent::Show),
        id@ != show_id@ && id@ == exit_id@ ==> r matches Some(AppEvent::Exit),
        id@ != show_id@ && id@ != exit_id@ ==> r is None,
{
    if id.eq(show_id) {
        Some(AppEvent::Show)
    } else if id.eq(exit_id) {
        Some(AppEvent::Exit)
    } else {
        None
    }
}

/// The tray icon's tooltip: the helper's name and its hotkey.
pub fn tray_tooltip() -> (t: String)
    ensures
        t@ == APP_NAME@ + " - "@ + HOTKEY_LABEL@,
{
    let mut t = APP_NAME.to_owned();
    t.append(" - ");
    t.append(HOTKEY_LABEL);
    t
}

/// The message when the tray menu cannot be made.
pub fn tray_menu_failed(error: &str) -> (m: String)
    ensures
        m@ == "无法创建托盘菜单："@ + error@,
{
    let mut m = "无法创建托盘菜单：".to_owned();
    m.append(error);
    m
}

/// The message when the tray icon or its image cannot be made.
pub fn tray_icon_failed(error: &str) -> (m: String)
    ensures
        m@ == "无法创建托盘图标："@ + error@,
{
    let mut m = "无法创建托盘图标：".to_owned();
    m.append(error);
    m
}

} // verus!
