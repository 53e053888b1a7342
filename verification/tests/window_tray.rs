use wakfarm::tray::{
    dispatch_menu_event, handle_close_request, handle_tray_click, tray_menu, CloseOutcome,
    MenuOutcome, TrayClick, TraySettings,
};
use wakfarm::window::{hide_window, minimize_window, show_window, AppWindows, WindowModel};

fn visible_window() -> WindowModel {
    WindowModel { visible: true, focused: true, minimized: false }
}

#[test]
fn show_reveals_and_focuses() {
    let mut app = AppWindows {
        main: Some(WindowModel { visible: false, focused: false, minimized: false }),
    };
    show_window(&mut app).unwrap();
    let w = app.main.unwrap();
    assert!(w.visible && w.focused && !w.minimized);
}

#[test]
fn hide_conceals_the_window() {
    let mut app = AppWindows { main: Some(visible_window()) };
    hide_window(&mut app).unwrap();
    let w = app.main.unwrap();
    assert!(!w.visible && !w.focused);
}

#[test]
fn minimize_minimizes_the_window() {
    let mut app = AppWindows { main: Some(visible_window()) };
    minimize_window(&mut app).unwrap();
    let w = app.main.unwrap();
    assert!(w.minimized && w.visible && !w.focused);
}

#[test]
fn missing_window_is_reported() {
    let mut app = AppWindows { main: None };
    let msg = "Window not found".to_string();
    assert_eq!(show_window(&mut app), Err(msg.clone()));
    assert_eq!(hide_window(&mut app), Err(msg.clone()));
    assert_eq!(minimize_window(&mut app), Err(msg));
}

#[test]
fn tray_menu_has_show_and_quit() {
    let menu = tray_menu();
    assert_eq!(menu.len(), 2);
    assert_eq!(menu[0].id, "show");
    assert_eq!(menu[0].label, "Afficher");
    assert_eq!(menu[1].id, "quit");
    assert_eq!(menu[1].label, "Quitter");
}

#[test]
fn menu_show_reveals_the_window() {
    let mut app = AppWindows {
        main: Some(WindowModel { visible: false, focused: false, minimized: false }),
    };
    let out = dispatch_menu_event(&"show".to_string(), &mut app);
    assert!(matches!(out, MenuOutcome::StillRunning));
    let w = app.main.unwrap();
    assert!(w.visible && w.focused);
}

#[test]
fn menu_quit_ends_the_process() {
    let mut app = AppWindows { main: Some(visible_window()) };
    let out = dispatch_menu_event(&"quit".to_string(), &mut app);
    assert!(matches!(out, MenuOutcome::Quit));
}

#[test]
fn menu_unknown_item_is_ignored() {
    let mut app = AppWindows {
        main: Some(WindowModel { visible: false, focused: false, minimized: false }),
    };
    let out = dispatch_menu_event(&"other".to_string(), &mut app);
    assert!(matches!(out, MenuOutcome::StillRunning));
    let w = app.main.unwrap();
    assert!(!w.visible && !w.focused);
}

#[test]
fn tray_left_click_reveals_the_window() {
    let mut app = AppWindows {
        main: Some(WindowModel { visible: false, focused: false, minimized: false }),
    };
    handle_tray_click(TrayClick::Left, &mut app);
    let w = app.main.unwrap();
    assert!(w.visible && w.focused);
}

#[test]
fn tray_other_click_does_nothing() {
    let mut app = AppWindows {
        main: Some(WindowModel { visible: false, focused: false, minimized: false }),
    };
    handle_tray_click(TrayClick::Other, &mut app);
    let w = app.main.unwrap();
    assert!(!w.visible && !w.focused);
}

#[test]
fn close_request_with_flag_hides_and_keeps_running() {
    let mut settings = TraySettings::new();
    settings.set_minimize_to_tray_enabled(true);
    let mut w = visible_window();
    let out = handle_close_request(&settings, &mut w);
    assert!(matches!(out, CloseOutcome::HiddenToTray));
    assert!(!w.visible);
}

#[test]
fn close_request_without_flag_proceeds_to_exit() {
    let settings = TraySettings::new();
    let mut w = visible_window();
    let out = handle_close_request(&settings, &mut w);
    assert!(matches!(out, CloseOutcome::CloseProceeds));
    assert!(w.visible && w.focused);
}

#[test]
fn flag_can_be_turned_back_off() {
    let mut settings = TraySettings::new();
    settings.set_minimize_to_tray_enabled(true);
    settings.set_minimize_to_tray_enabled(false);
    let mut w = visible_window();
    let out = handle_close_request(&settings, &mut w);
    assert!(matches!(out, CloseOutcome::CloseProceeds));
}
