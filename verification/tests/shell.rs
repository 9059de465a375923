use unofficial_messenger_next::cache::QuitState;
use unofficial_messenger_next::call_media::call_media_permission;
use unofficial_messenger_next::settings::{
    is_hide_on_close_enabled, load_settings, set_hide_on_close_enabled, AppSettings,
};
use unofficial_messenger_next::startup::{
    is_start_with_windows_enabled, normalize_startup_working_directory, set_start_with_windows,
    shortcut_removal_result, was_launched_from_windows_startup, StartupStep,
};
use unofficial_messenger_next::text::{chars_of, decimal_of, string_of, trim_whitespace};
use unofficial_messenger_next::tray::{
    hide_on_close_requested, start_with_windows_requested, tray_event_shows_main_window,
    tray_menu_action, tray_menu_entries, update_menu_label, TrayMenuAction, TrayMenuEntry,
    TrayPointerEvent, UpdateTrayMenu,
};
use unofficial_messenger_next::window::{
    main_window_title_update, title_bar_text, window_title_for_page, PopupCounter,
};

#[test]
fn default_settings_hide_on_close() {
    assert!(AppSettings::default().hide_on_close);
    assert!(load_settings(None).hide_on_close);
    assert!(!load_settings(Some(AppSettings { hide_on_close: false })).hide_on_close);
}

#[test]
fn hide_on_close_reads_back() {
    let mut settings = AppSettings::default();
    let snapshot = set_hide_on_close_enabled(&mut settings, false);
    assert!(!snapshot.hide_on_close);
    assert!(!is_hide_on_close_enabled(Some(&settings)));
    assert!(is_hide_on_close_enabled(None));
}

#[test]
fn startup_launch_detection() {
    let args = vec!["messenger.exe".to_string(), "--tauri-startup".to_string()];
    assert!(was_launched_from_windows_startup(true, &args));
    assert!(!was_launched_from_windows_startup(false, &args));
    assert!(!was_launched_from_windows_startup(true, &vec!["messenger.exe".to_string()]));
}

#[test]
fn startup_working_directory() {
    assert_eq!(normalize_startup_working_directory(true, Some("C:\\App".to_string())), Some("C:\\App".to_string()));
    assert_eq!(normalize_startup_working_directory(false, Some("C:\\App".to_string())), None);
    assert_eq!(normalize_startup_working_directory(true, None), None);
}

#[test]
fn start_with_windows_state() {
    assert!(is_start_with_windows_enabled(true, true, false));
    assert!(is_start_with_windows_enabled(true, false, true));
    assert!(!is_start_with_windows_enabled(true, false, false));
    assert!(!is_start_with_windows_enabled(false, true, true));
}

#[test]
fn start_with_windows_steps() {
    assert_eq!(
        set_start_with_windows(true, true),
        Ok(vec![StartupStep::RemoveLegacyRegistryEntry, StartupStep::CreateShortcut])
    );
    assert_eq!(
        set_start_with_windows(false, true),
        Ok(vec![StartupStep::RemoveLegacyRegistryEntry, StartupStep::RemoveShortcut])
    );
    assert_eq!(
        set_start_with_windows(true, false),
        Err("start with Windows is only supported on Windows".to_string())
    );
    assert_eq!(shortcut_removal_result(None), Ok(()));
    assert_eq!(shortcut_removal_result(Some((true, "gone".to_string()))), Ok(()));
    assert_eq!(shortcut_removal_result(Some((false, "denied".to_string()))), Err("denied".to_string()));
}

#[test]
fn tray_menu_actions() {
    assert_eq!(tray_menu_action("tray-show"), Some(TrayMenuAction::Show));
    assert_eq!(tray_menu_action("tray-hide"), Some(TrayMenuAction::Hide));
    assert_eq!(tray_menu_action("tray-reload"), Some(TrayMenuAction::Reload));
    assert_eq!(tray_menu_action("tray-update"), Some(TrayMenuAction::ShowUpdatePrompt));
    assert_eq!(tray_menu_action("tray-start-with-windows"), Some(TrayMenuAction::ToggleStartWithWindows));
    assert_eq!(tray_menu_action("tray-hide-on-close"), Some(TrayMenuAction::ToggleHideOnClose));
    assert_eq!(tray_menu_action("tray-quit"), Some(TrayMenuAction::Quit));
    assert_eq!(tray_menu_action("tray-other"), None);
}

#[test]
fn tray_pointer_events() {
    assert!(tray_event_shows_main_window(TrayPointerEvent::Click { left_button: true, released: true }));
    assert!(!tray_event_shows_main_window(TrayPointerEvent::Click { left_button: true, released: false }));
    assert!(!tray_event_shows_main_window(TrayPointerEvent::Click { left_button: false, released: true }));
    assert!(tray_event_shows_main_window(TrayPointerEvent::DoubleClick { left_button: true }));
    assert!(!tray_event_shows_main_window(TrayPointerEvent::DoubleClick { left_button: false }));
    assert!(!tray_event_shows_main_window(TrayPointerEvent::Other));
}

#[test]
fn tray_check_marks() {
    assert!(start_with_windows_requested(Some(true)));
    assert!(!start_with_windows_requested(None));
    assert!(hide_on_close_requested(None));
    assert!(!hide_on_close_requested(Some(false)));
}

#[test]
fn tray_menu_layout() {
    let entries = tray_menu_entries(false, true);
    assert_eq!(entries.len(), 8);
    assert!(matches!(entries[0], TrayMenuEntry::Item { id: "tray-show", text: "Show" }));
    assert!(matches!(entries[3], TrayMenuEntry::Separator));
    assert!(matches!(
        entries[4],
        TrayMenuEntry::Check { id: "tray-start-with-windows", enabled: true, checked: false, .. }
    ));
    assert!(matches!(
        entries[5],
        TrayMenuEntry::Check { id: "tray-hide-on-close", enabled: true, checked: false, .. }
    ));
    assert!(matches!(entries[7], TrayMenuEntry::Item { id: "tray-quit", text: "Quit" }));
    assert!(matches!(tray_menu_entries(true, false)[4], TrayMenuEntry::Check { enabled: false, .. }));
}

#[test]
fn update_entry_in_tray() {
    assert_eq!(update_menu_label("0.2.0"), "Update to v0.2.0...");
    let mut menu = UpdateTrayMenu::new();
    assert!(menu.show_update_in_tray());
    assert!(!menu.show_update_in_tray());
    menu.insertion_failed();
    assert!(menu.show_update_in_tray());
}

#[test]
fn window_titles() {
    assert_eq!(title_bar_text("Chats"), " Chats");
    assert_eq!(window_title_for_page("  (2) Chats \n"), " (2) Chats");
    assert_eq!(window_title_for_page(" \t "), " Messenger");
    let update = main_window_title_update(" (4) Messenger ");
    assert_eq!(update.unread_count, Some(4));
    assert_eq!(update.window_title, " (4) Messenger");
    assert_eq!(main_window_title_update("Messenger").unread_count, None);
}

#[test]
fn popup_labels() {
    let mut counter = PopupCounter::new();
    assert_eq!(counter.next_label(), "messenger-popup-1");
    assert_eq!(counter.next_label(), "messenger-popup-2");
    let mut last = PopupCounter { next: usize::MAX };
    assert_eq!(last.next_label(), format!("messenger-popup-{}", usize::MAX));
    assert_eq!(last.next, 0);
}

#[test]
fn quit_starts_once() {
    let mut quit = QuitState::new();
    assert!(quit.quit_after_clearing_cache());
    assert!(!quit.quit_after_clearing_cache());
    assert!(quit.in_progress);
}

#[test]
fn call_media_permissions() {
    assert_eq!(call_media_permission(false, Some("https://www.messenger.com/")), None);
    assert_eq!(call_media_permission(true, Some("https://www.messenger.com/call")), Some(true));
    assert_eq!(call_media_permission(true, Some("http://www.messenger.com/")), Some(false));
    assert_eq!(call_media_permission(true, Some("https://example.com/")), Some(false));
    assert_eq!(call_media_permission(true, Some("not a url")), Some(false));
    assert_eq!(call_media_permission(true, None), Some(false));
}

#[test]
fn text_helpers() {
    assert_eq!(string_of(&decimal_of(0)), "0");
    assert_eq!(string_of(&decimal_of(1234567890)), "1234567890");
    assert_eq!(string_of(&trim_whitespace(&chars_of("\u{3000} a b \u{2029}"))), "a b");
}
