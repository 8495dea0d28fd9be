//! Decisions of the desktop shell: closing the main window hides it to the tray, the
//! tray menu and what its entries do, the tray icon click, and the autostart toggle.

use vstd::prelude::*;
use crate::text::same_text;

verus! {

/// Label of the main window.
pub const WINDOW_LABEL: &'static str = "main";

/// Id of the tray icon.
pub const TRAY_ID: &'static str = "main-tray";

/// Tooltip of the tray icon.
pub const TRAY_TOOLTIP: &'static str = "dsh-desktop";

/// Id of the autostart menu entry.
pub const AUTOSTART_ID: &'static str = "autostart";

/// Id of the menu entry that shows the main window.
pub const SHOW_ID: &'static str = "show";

/// Id of the menu entry that quits.
pub const QUIT_ID: &'static str = "quit";

/// Whether closing a window hides it instead: only a close request of the main window,
/// so that the application keeps running in the tray.
pub fn hides_on_close(window_label: &str, close_requested: bool) -> (r: bool)
    ensures
        r == (close_requested && window_label@ == WINDOW_LABEL@),
{
    close_requested && same_text(window_label, WINDOW_LABEL)
}

/// What a tray menu entry does.
#[derive(Debug, Clone, Copy, PartialEq, Eq, Structural)]
pub enum MenuCommand {
    /// Show, unminimize and focus the main window.
    ShowWindow,
    /// Switch autostart at login on or off.
    ToggleAutostart,
    /// Quit the application (exit code 0).
    Quit,
    /// Nothing.
    Ignore,
}

/// The command of a menu entry id.
pub open spec fn command_of(id: Seq<char>) -> MenuCommand {
    if id == SHOW_ID@ {
        MenuCommand::ShowWindow
    } else if id == AUTOSTART_ID@ {
        MenuCommand::ToggleAutostart
    } else if id == QUIT_ID@ {
        MenuCommand::Quit
    } else {
        MenuCommand::Ignore
    }
}

/// The command of the tray menu entry with id `id`.
pub fn menu_command(id: &str) -> (r: MenuCommand)
    ensures
        r == command_of(id@),
{
    if same_text(id, SHOW_ID) {
        MenuCommand::ShowWindow
    } else if same_text(id, AUTOSTART_ID) {
        MenuCommand::ToggleAutostart
    } else if same_text(id, QUIT_ID) {
        MenuCommand::Quit
    } else {
        MenuCommand::Ignore
    }
}

/// An entry of the tray menu: id, label, and the check mark of a check entry.
pub struct MenuEntry {
    pub id: &'static str,
    pub label: &'static str,
    pub checked: Option<bool>,
}

/// The tray menu: "开机自启" (checked when autostart is on; unchecked when the state
/// could not be read, `None`), "显示主窗口", "退出".
pub fn tray_menu(autostart_enabled: Option<bool>) -> (r: Vec<MenuEntry>)
    ensures
        r@.len() == 3,
        r@[0].id@ == AUTOSTART_ID@,
        r@[0].label@ == "开机自启"@,
        r@[0].checked == Some(autostart_enabled == Some(true)),
        r@[1].id@ == SHOW_ID@,
        r@[1].label@ == "显示主窗口"@,
        r@[1].checked is None,
        r@[2].id@ == QUIT_ID@,
        r@[2].label@ == "退出"@,
        r@[2].checked is None,
{
    let checked = match autostart_enabled {
        Some(on) => on,
        None => false,
    };
    let mut r: Vec<MenuEntry> = Vec::new();
    r.push(MenuEntry { id: AUTOSTART_ID, label: "开机自启", checked: Some(checked) });
    r.push(MenuEntry { id: SHOW_ID, label: "显示主窗口", checked: None });
    r.push(MenuEntry { id: QUIT_ID, label: "退出", checked: None });
    r
}

/// A mouse button.
#[derive(Debug, Clone, Copy, PartialEq, Eq, Structural)]
pub enum MouseButton {
    Left,
    Right,
    Middle,
}

/// Whether a mouse button went up or down.
#[derive(Debug, Clone, Copy, PartialEq, Eq, Structural)]
pub enum ButtonState {
    Up,
    Down,
}

/// An event of the tray icon.
#[derive(Debug, Clone, Copy, PartialEq, Eq, Structural)]
pub enum TrayEvent {
    Click { button: MouseButton, state: ButtonState },
    DoubleClick { button: MouseButton },
    Enter,
    Move,
    Leave,
}

/// Whether a tray icon event shows the main window: a left click, on release. (The menu
/// opens on the right click.)
pub fn tray_shows_window(event: TrayEvent) -> (r: bool)
    ensures
        r == (event == TrayEvent::Click { button: MouseButton::Left, state: ButtonState::Up }),
{
    match event {
        TrayEvent::Click { button: MouseButton::Left, state: ButtonState::Up } => true,
        _ => false,
    }
}

/// What the autostart entry does, given the autostart state (`None`: it could not be read).
#[derive(Debug, Clone, Copy, PartialEq, Eq, Structural)]
pub enum AutostartChange {
    /// Switch autostart off.
    Disable,
    /// Switch autostart on.
    Enable,
    /// Report that the state could not be read, and change nothing.
    ReportQueryFailure,
}

/// The change that the autostart entry makes from the current state.
pub open spec fn change_for(enabled: Option<bool>) -> AutostartChange {
    match enabled {
        Some(true) => AutostartChange::Disable,
        Some(false) => AutostartChange::Enable,
        None => AutostartChange::ReportQueryFailure,
    }
}

/// The check mark after `change` was tried: the new state when the change succeeded,
/// else unchanged (`None`).
pub open spec fn mark_after(change: AutostartChange, succeeded: bool) -> Option<bool> {
    match change {
        AutostartChange::Disable => if succeeded { Some(false) } else { None },
        AutostartChange::Enable => if succeeded { Some(true) } else { None },
        AutostartChange::ReportQueryFailure => None,
    }
}

/// The change that the autostart entry makes from the current state.
pub fn autostart_change(enabled: Option<bool>) -> (r: AutostartChange)
    ensures
        r == change_for(enabled),
{
    match enabled {
        Some(true) => AutostartChange::Disable,
        Some(false) => AutostartChange::Enable,
        None => AutostartChange::ReportQueryFailure,
    }
}

/// The check mark that the autostart entry gets after `change` was tried.
pub fn check_mark_after(change: AutostartChange, succeeded: bool) -> (r: Option<bool>)
    ensures
        r == mark_after(change, succeeded),
{
    match change {
        AutostartChange::Disable => if succeeded {
            Some(false)
        } else {
            None
        },
        AutostartChange::Enable => if succeeded {
            Some(true)
        } else {
            None
        },
        AutostartChange::ReportQueryFailure => None,
    }
}

/// Each tray menu entry leads to its own command: autostart to the toggle, show to the
/// main window, quit to quitting; no entry is ignored.
pub proof fn lemma_menu_entries_dispatch()
    ensures
        command_of(AUTOSTART_ID@) == MenuCommand::ToggleAutostart,
        command_of(SHOW_ID@) == MenuCommand::ShowWindow,
        command_of(QUIT_ID@) == MenuCommand::Quit,
        command_of("autostart"@) == MenuCommand::ToggleAutostart,
        command_of("show"@) == MenuCommand::ShowWindow,
        command_of("quit"@) == MenuCommand::Quit,
{
    reveal_strlit("autostart");
    reveal_strlit("show");
    reveal_strlit("quit");
    assert(AUTOSTART_ID@.len() != SHOW_ID@.len());
    assert(QUIT_ID@[0] != SHOW_ID@[0]);
    assert(QUIT_ID@.len() != AUTOSTART_ID@.len());
}

/// A successful toggle flips autostart and leaves the check mark showing the new state;
/// a failed one, or an unreadable state, leaves the check mark alone.
pub proof fn lemma_toggle_flips(on: bool, succeeded: bool)
    ensures
        succeeded ==> mark_after(change_for(Some(on)), succeeded) == Some(!on),
        !succeeded ==> mark_after(change_for(Some(on)), succeeded) is None,
        mark_after(change_for(None), succeeded) is None,
{
}

} // verus!
