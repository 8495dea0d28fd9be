use dsh_desktop::shell::{
    autostart_change, check_mark_after, hides_on_close, menu_command, tray_menu,
    tray_shows_window, AutostartChange, ButtonState, MenuCommand, MouseButton, TrayEvent,
    TRAY_ID, TRAY_TOOLTIP, WINDOW_LABEL,
};

#[test]
fn closing_the_main_window_hides_it() {
    assert!(hides_on_close("main", true));
    assert!(!hides_on_close("main", false));
    assert!(!hides_on_close("settings", true));
    assert_eq!(WINDOW_LABEL, "main");
}

#[test]
fn menu_ids_dispatch() {
    assert_eq!(menu_command("show"), MenuCommand::ShowWindow);
    assert_eq!(menu_command("autostart"), MenuCommand::ToggleAutostart);
    assert_eq!(menu_command("quit"), MenuCommand::Quit);
    assert_eq!(menu_command("Quit"), MenuCommand::Ignore);
    assert_eq!(menu_command(""), MenuCommand::Ignore);
}

#[test]
fn tray_menu_entries() {
    let m = tray_menu(Some(true));
    assert_eq!(m.len(), 3);
    assert_eq!((m[0].id, m[0].label, m[0].checked), ("autostart", "开机自启", Some(true)));
    assert_eq!((m[1].id, m[1].label, m[1].checked), ("show", "显示主窗口", None));
    assert_eq!((m[2].id, m[2].label, m[2].checked), ("quit", "退出", None));
    assert_eq!(tray_menu(Some(false))[0].checked, Some(false));
    assert_eq!(tray_menu(None)[0].checked, Some(false));
    for e in tray_menu(None) {
        assert_ne!(menu_command(e.id), MenuCommand::Ignore);
    }
    assert_eq!(TRAY_ID, "main-tray");
    assert_eq!(TRAY_TOOLTIP, "dsh-desktop");
}

#[test]
fn left_click_release_shows_window() {
    assert!(tray_shows_window(TrayEvent::Click { button: MouseButton::Left, state: ButtonState::Up }));
    assert!(!tray_shows_window(TrayEvent::Click { button: MouseButton::Left, state: ButtonState::Down }));
    assert!(!tray_shows_window(TrayEvent::Click { button: MouseButton::Right, state: ButtonState::Up }));
    assert!(!tray_shows_window(TrayEvent::DoubleClick { button: MouseButton::Left }));
    assert!(!tray_shows_window(TrayEvent::Enter));
}

#[test]
fn autostart_toggle() {
    assert_eq!(autostart_change(Some(true)), AutostartChange::Disable);
    assert_eq!(autostart_change(Some(false)), AutostartChange::Enable);
    assert_eq!(autostart_change(None), AutostartChange::ReportQueryFailure);
    assert_eq!(check_mark_after(AutostartChange::Disable, true), Some(false));
    assert_eq!(check_mark_after(AutostartChange::Enable, true), Some(true));
    assert_eq!(check_mark_after(AutostartChange::Enable, false), None);
    assert_eq!(check_mark_after(AutostartChange::ReportQueryFailure, true), None);
}

#[test]
fn successful_toggle_flips_check_mark() {
    for on in [true, false] {
        let change = autostart_change(Some(on));
        assert_eq!(check_mark_after(change, true), Some(!on));
        assert_eq!(check_mark_after(change, false), None);
    }
}
