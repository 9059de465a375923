//! The tray icon's menu: its entries, what each menu event does, when the
//! icon shows the main window, and the "Update to v..." entry that appears
//! once an update is put off.

use vstd::prelude::*;

use crate::text::{chars_eq, chars_of, join_text};

verus! {

pub const TRAY_MENU_SHOW: &'static str = "tray-show";
pub const TRAY_MENU_HIDE: &'static str = "tray-hide";
pub const TRAY_MENU_RELOAD: &'static str = "tray-reload";
pub const TRAY_MENU_UPDATE: &'static str = "tray-update";
pub const TRAY_MENU_START_WITH_WINDOWS: &'static str = "tray-start-with-windows";
pub const TRAY_MENU_HIDE_ON_CLOSE: &'static str = "tray-hide-on-close";
pub const TRAY_MENU_QUIT: &'static str = "tray-quit";
/// Identifier of the tray icon.
pub const TRAY_ID: &'static str = "messenger-tray";
/// Text of the update entry before a version is known.
pub const UPDATE_MENU_TEXT: &'static str = "Update Messenger";
/// Where the update entry (after its separator) goes in the menu.
pub const UPDATE_MENU_POSITION: usize = 3;

/// What a menu entry does.
#[derive(PartialEq, Eq, Structural, Debug, Clone, Copy)]
pub enum TrayMenuAction {
    Show,
    Hide,
    Reload,
    ShowUpdatePrompt,
    ToggleStartWithWindows,
    ToggleHideOnClose,
    Quit,
}

/// The action of the menu entry with identifier `id`.
pub open spec fn spec_tray_menu_action(id: Seq<char>) -> Option<TrayMenuAction> {
    if id == TRAY_MENU_SHOW@ {
        Some(TrayMenuAction::Show)
    } else if id == TRAY_MENU_HIDE@ {
        Some(TrayMenuAction::Hide)
    } else if id == TRAY_MENU_RELOAD@ {
        Some(TrayMenuAction::Reload)
    } else if id == TRAY_MENU_UPDATE@ {
        Some(TrayMenuAction::ShowUpdatePrompt)
    } else if id == TRAY_MENU_START_WITH_WINDOWS@ {
        Some(TrayMenuAction::ToggleStartWithWindows)
    } else if id == TRAY_MENU_HIDE_ON_CLOSE@ {
        Some(TrayMenuAction::ToggleHideOnClose)
    } else if id == TRAY_MENU_QUIT@ {
        Some(TrayMenuAction::Quit)
    } else {
        None
    }
}

/// The action for a menu event; unknown identifiers do nothing.
pub fn tray_menu_action(id: &str) -> (res: Option<TrayMenuAction>)
    ensures
        res == spec_tray_menu_action(id@),
{
    let id = chars_of(id);
    if chars_eq(&id, &chars_of(TRAY_MENU_SHOW)) {
        Some(TrayMenuAction::Show)
    } else if chars_eq(&id, &chars_of(TRAY_MENU_HIDE)) {
        Some(TrayMenuAction::Hide)
    } else if chars_eq(&id, &chars_of(TRAY_MENU_RELOAD)) {
        Some(TrayMenuAction::Reload)
    } else if chars_eq(&id, &chars_of(TRAY_MENU_UPDATE)) {
        Some(TrayMenuAction::ShowUpdatePrompt)
    } else if chars_eq(&id, &chars_of(TRAY_MENU_START_WITH_WINDOWS)) {
        Some(TrayMenuAction::ToggleStartWithWindows)
    } else if chars_eq(&id, &chars_of(TRAY_MENU_HIDE_ON_CLOSE)) {
        Some(TrayMenuAction::ToggleHideOnClose)
    } else if chars_eq(&id, &chars_of(TRAY_MENU_QUIT)) {
        Some(TrayMenuAction::Quit)
    } else {
        None
    }
}

/// A pointer event on the tray icon.
#[derive(PartialEq, Eq, Structural, Debug, Clone, Copy)]
pub enum TrayPointerEvent {
    /// A click; whether with the left button, and whether it is the release.
    Click { left_button: bool, released: bool },
    /// A double click; whether with the left button.
    DoubleClick { left_button: bool },
    /// Entering, moving, leaving.
    Other,
}

/// A left-button release or a left double click on the icon shows the main
/// window.
pub fn tray_event_shows_main_window(event: TrayPointerEvent) -> (res: bool)
    ensures
        res == match event {
            TrayPointerEvent::Click { left_button, released } => left_button && released,
            TrayPointerEvent::DoubleClick { left_button } => left_button,
            TrayPointerEvent::Other => false,
        },
{
    match event {
        TrayPointerEvent::Click { left_button, released } => left_button && released,
        TrayPointerEvent::DoubleClick { left_button } => left_button,
        TrayPointerEvent::Other => false,
    }
}

/// The value the "Start with Windows" entry asks for after a click: its new
/// check mark, off when it cannot be read.
pub fn start_with_windows_requested(checked: Option<bool>) -> (res: bool)
    ensures
        res == (checked == Some(true)),
{
    match checked {
        Some(c) => c,
        None => false,
    }
}

/// The value the "Hide on Close" entry asks for after a click: its new check
/// mark, on when it cannot be read.
pub fn hide_on_close_requested(checked: Option<bool>) -> (res: bool)
    ensures
        res == (checked != Some(false)),
{
    match checked {
        Some(c) => c,
        None => true,
    }
}

/// One entry of the tray menu.
#[derive(Debug, Clone, Copy)]
pub enum TrayMenuEntry {
    /// A plain entry (always enabled).
    Item { id: &'static str, text: &'static str },
    /// An entry with a check mark.
    Check { id: &'static str, text: &'static str, enabled: bool, checked: bool },
    /// A separator line.
    Separator,
}

/// The entries of the tray menu, top to bottom. "Start with Windows" can only
/// be used on Windows and starts unchecked until the system is asked;
/// "Hide on Close" shows the current setting.
pub fn tray_menu_entries(hide_on_close: bool, on_windows: bool) -> (res: Vec<TrayMenuEntry>)
    ensures
        res@ == seq![
            TrayMenuEntry::Item { id: TRAY_MENU_SHOW, text: "Show" },
            TrayMenuEntry::Item { id: TRAY_MENU_HIDE, text: "Hide" },
            TrayMenuEntry::Item { id: TRAY_MENU_RELOAD, text: "Reload Messenger" },
            TrayMenuEntry::Separator,
            TrayMenuEntry::Check {
                id: TRAY_MENU_START_WITH_WINDOWS,
                text: "Start with Windows",
                enabled: on_windows,
                checked: false,
            },
            TrayMenuEntry::Check {
                id: TRAY_MENU_HIDE_ON_CLOSE,
                text: "Hide on Close",
                enabled: true,
                checked: hide_on_close,
            },
            TrayMenuEntry::Separator,
            TrayMenuEntry::Item { id: TRAY_MENU_QUIT, text: "Quit" },
        ],
{
    let mut entries: Vec<TrayMenuEntry> = Vec::new();
    entries.push(TrayMenuEntry::Item { id: TRAY_MENU_SHOW, text: "Show" });
    entries.push(TrayMenuEntry::Item { id: TRAY_MENU_HIDE, text: "Hide" });
    entries.push(TrayMenuEntry::Item { id: TRAY_MENU_RELOAD, text: "Reload Messenger" });
    entries.push(TrayMenuEntry::Separator);
    entries.push(
        TrayMenuEntry::Check {
            id: TRAY_MENU_START_WITH_WINDOWS,
            text: "Start with Windows",
            enabled: on_windows,
            checked: false,
        },
    );
    entries.push(
        TrayMenuEntry::Check {
            id: TRAY_MENU_HIDE_ON_CLOSE,
            text: "Hide on Close",
            enabled: true,
            checked: hide_on_close,
        },
    );
    entries.push(TrayMenuEntry::Separator);
    entries.push(TrayMenuEntry::Item { id: TRAY_MENU_QUIT, text: "Quit" });
    entries
}

/// The text of the update entry for `version`: "Update to v<version>...".
pub fn update_menu_label(version: &str) -> (res: String)
    ensures
        res@ == "Update to v"@ + version@ + "..."@,
{
    let head = join_text("Update to v", version);
    join_text(head.as_str(), "...")
}

/// Whether the update entry is in the menu.
pub struct UpdateTrayMenu {
    pub is_visible: bool,
}

impl UpdateTrayMenu {
    /// The entry starts out hidden.
    pub fn new() -> (res: UpdateTrayMenu)
        ensures
            !res.is_visible,
    {
        UpdateTrayMenu { is_visible: false }
    }

    /// Records that the update entry is to be shown; true when it still has
    /// to be inserted (at [`UPDATE_MENU_POSITION`]).
    pub fn show_update_in_tray(&mut self) -> (insert: bool)
        ensures
            final(self).is_visible,
            insert == !old(self).is_visible,
    {
        let was = self.is_visible;
        self.is_visible = true;
        !was
    }

    /// Records that inserting the entry failed, so the next attempt retries.
    pub fn insertion_failed(&mut self)
        ensures
            !final(self).is_visible,
    {
        self.is_visible = false;
    }
}

} // verus!
