use glazewm_window_info::app_state::{AppEvent, AppState, WindowCommand, APP_NAME, HOTKEY_LABEL};
use glazewm_window_info::hotkey::{hotkey_init_failed, hotkey_register_failed, CaptureGate};
use glazewm_window_info::icon::make_icon_rgba;
use glazewm_window_info::layout::{highlight_color, json_line_roles, line_role, LineRole};
use glazewm_window_info::query::WindowInfo;
use glazewm_window_info::tray::{menu_event, tray_icon_failed, tray_menu_failed, tray_tooltip};

fn info(title: &str) -> WindowInfo {
    WindowInfo {
        title: title.to_string(),
        class_name: "C".to_string(),
        process_name: "P".to_string(),
        formatted_json: "{}".to_string(),
    }
}

#[test]
fn starts_ready_without_errors() {
    let state = AppState::new(&Vec::new());
    assert_eq!(state.status, format!("工具已在后台运行。激活目标窗口后按 {HOTKEY_LABEL}。"));
    assert!(!state.status_is_error);
    assert!(!state.allow_exit);
    assert!(state.window_info.is_none());
}

#[test]
fn starts_with_joined_errors() {
    let state = AppState::new(&vec!["hotkey failed".to_string(), "tray failed".to_string()]);
    assert_eq!(state.status, "hotkey failed\ntray failed");
    assert!(state.status_is_error);
}

#[test]
fn events_drive_the_status_line() {
    let mut state = AppState::new(&Vec::new());
    assert_eq!(state.handle_event(AppEvent::CaptureStarted), WindowCommand::Stay);
    assert_eq!(state.status, "正在读取 GlazeWM 的焦点窗口……");
    assert_eq!(state.handle_event(AppEvent::CaptureFinished(Ok(info("one")))), WindowCommand::Show);
    assert_eq!(state.status, "查询完成。可用鼠标选择下方文本并复制。");
    assert!(!state.status_is_error);
    assert_eq!(state.handle_event(AppEvent::CaptureFinished(Err("bad".to_string()))), WindowCommand::Show);
    assert_eq!(state.status, "bad");
    assert!(state.status_is_error);
    assert_eq!(state.status_color(), Some((220, 80, 80)));
    assert_eq!(state.window_info.as_ref().unwrap().title, "one");
    assert_eq!(state.handle_event(AppEvent::Show), WindowCommand::Show);
    state.json_copied();
    assert_eq!(state.status, "完整 JSON 已复制到剪贴板。");
    assert_eq!(state.status_color(), None);
}

#[test]
fn close_hides_until_exit() {
    let mut state = AppState::new(&Vec::new());
    assert!(state.cancels_close());
    assert_eq!(state.handle_event(AppEvent::Exit), WindowCommand::Close);
    assert!(!state.cancels_close());
    state.handle_event(AppEvent::CaptureFinished(Err("x".to_string())));
    assert!(!state.cancels_close());
    let mut other = AppState::new(&Vec::new());
    assert_eq!(other.request_exit(), WindowCommand::Close);
    assert!(other.allow_exit);
}

#[test]
fn one_capture_at_a_time() {
    let mut gate = CaptureGate::new();
    assert!(gate.on_hotkey(7, 8, true).is_none());
    assert!(gate.on_hotkey(7, 7, false).is_none());
    assert!(!gate.in_progress);
    assert!(matches!(gate.on_hotkey(7, 7, true), Some(AppEvent::CaptureStarted)));
    assert!(gate.on_hotkey(7, 7, true).is_none());
    assert!(gate.in_progress);
    match gate.finish(Err("late".to_string())) {
        AppEvent::CaptureFinished(Err(message)) => assert_eq!(message, "late"),
        _ => panic!("expected the finished query"),
    }
    assert!(!gate.in_progress);
    assert!(gate.on_hotkey(7, 7, true).is_some());
}

#[test]
fn menu_items_map_to_events() {
    let show = "show".to_string();
    let exit = "exit".to_string();
    assert!(matches!(menu_event(&show, &show, &exit), Some(AppEvent::Show)));
    assert!(matches!(menu_event(&exit, &show, &exit), Some(AppEvent::Exit)));
    assert!(menu_event(&"other".to_string(), &show, &exit).is_none());
}

#[test]
fn icon_is_a_gridded_square() {
    let (rgba, width, height) = make_icon_rgba();
    assert_eq!((width, height), (32, 32));
    assert_eq!(rgba.len(), 32 * 32 * 4);
    let pixel = |x: usize, y: usize| rgba[(y * 32 + x) * 4..(y * 32 + x) * 4 + 4].to_vec();
    assert_eq!(pixel(0, 0), vec![0, 0, 0, 0]);
    assert_eq!(pixel(3, 3), vec![65, 105, 225, 255]);
    assert_eq!(pixel(12, 5), vec![245, 248, 255, 255]);
    assert_eq!(pixel(5, 20), vec![245, 248, 255, 255]);
    assert_eq!(pixel(28, 28), vec![65, 105, 225, 255]);
    assert_eq!(pixel(29, 12), vec![0, 0, 0, 0]);
    assert_eq!(pixel(31, 31), vec![0, 0, 0, 0]);
    for y in 0..32 {
        for x in 0..32 {
            let inside = (3..29).contains(&x) && (3..29).contains(&y);
            assert_eq!(pixel(x, y)[3], if inside { 255 } else { 0 });
        }
    }
}

#[test]
fn lines_are_classified_by_key() {
    assert_eq!(line_role("    \"processName\": \"Code\",\n"), LineRole::ProcessName);
    assert_eq!(line_role("\"className\": \"X\""), LineRole::ClassName);
    assert_eq!(line_role("\t\"title\": \"t\""), LineRole::Title);
    assert_eq!(line_role("  \"titles\": 1"), LineRole::Other);
    assert_eq!(line_role("x \"title\": 1"), LineRole::Other);
    let roles = json_line_roles("{\n  \"title\": \"a\",\n  \"handle\": 1\n}");
    let kinds: Vec<LineRole> = roles.iter().map(|p| p.1).collect();
    assert_eq!(kinds, vec![LineRole::Other, LineRole::Title, LineRole::Other, LineRole::Other]);
    assert_eq!(roles[1].0, "  \"title\": \"a\",\n");
}

#[test]
fn highlight_colors_follow_the_theme() {
    assert_eq!(highlight_color(LineRole::ProcessName, true), Some((120, 210, 140)));
    assert_eq!(highlight_color(LineRole::ProcessName, false), Some((25, 125, 55)));
    assert_eq!(highlight_color(LineRole::ClassName, true), Some((110, 180, 255)));
    assert_eq!(highlight_color(LineRole::ClassName, false), Some((25, 90, 180)));
    assert_eq!(highlight_color(LineRole::Title, true), Some((245, 190, 100)));
    assert_eq!(highlight_color(LineRole::Title, false), Some((175, 95, 15)));
    assert_eq!(highlight_color(LineRole::Other, true), None);
}

#[test]
fn setup_messages_name_the_error() {
    assert_eq!(hotkey_init_failed("e1"), "无法初始化全局热键：e1");
    assert_eq!(hotkey_register_failed("e2"), "无法注册全局热键 Ctrl+Alt+I：e2");
    assert_eq!(tray_menu_failed("e3"), "无法创建托盘菜单：e3");
    assert_eq!(tray_icon_failed("e4"), "无法创建托盘图标：e4");
    assert_eq!(tray_tooltip(), format!("{APP_NAME} - {HOTKEY_LABEL}"));
    assert_eq!(tray_tooltip(), "GlazeWM Window Info - Ctrl+Alt+I");
}
