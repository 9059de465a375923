use unofficial_messenger_next::badge::{
    apply_taskbar_badge, clear_taskbar_badge, digit_pattern, overlay_icon_for_count,
    parse_i64_chars, tray_icon_has_unread_dot, unread_count_from_title, update_taskbar_badge,
    BadgeRefresh, BadgeUpdate,
};

fn chars(s: &str) -> Vec<char> {
    s.chars().collect()
}

fn pixel(rgba: &[u8], x: usize, y: usize) -> [u8; 4] {
    let i = (32 * y + x) * 4;
    [rgba[i], rgba[i + 1], rgba[i + 2], rgba[i + 3]]
}

const TEXT: [u8; 4] = [236, 238, 245, 255];
const DISC: [u8; 4] = [41, 43, 51, 245];
const CLEAR: [u8; 4] = [0, 0, 0, 0];

#[test]
fn unread_count_plain() {
    assert_eq!(unread_count_from_title("(3) Messenger"), Some(3));
}

#[test]
fn unread_count_with_plus_and_spaces() {
    assert_eq!(unread_count_from_title("( 99+ ) Messenger"), Some(99));
    assert_eq!(unread_count_from_title("(12++) Messenger"), Some(12));
    assert_eq!(unread_count_from_title("(+7) Messenger"), Some(7));
}

#[test]
fn unread_count_absent_or_not_positive() {
    assert_eq!(unread_count_from_title("Messenger"), None);
    assert_eq!(unread_count_from_title("(0) Messenger"), None);
    assert_eq!(unread_count_from_title("(-4) Messenger"), None);
    assert_eq!(unread_count_from_title("(3 Messenger"), None);
    assert_eq!(unread_count_from_title("(abc) Messenger"), None);
    assert_eq!(unread_count_from_title("() Messenger"), None);
    assert_eq!(unread_count_from_title("(+) Messenger"), None);
}

#[test]
fn unread_count_uses_first_parentheses() {
    assert_eq!(unread_count_from_title("Chat (x) (5)"), None);
    assert_eq!(unread_count_from_title("Chat (8) (5)"), Some(8));
    assert_eq!(unread_count_from_title(")( 2)"), Some(2));
}

#[test]
fn unread_count_overflow() {
    assert_eq!(unread_count_from_title("(9223372036854775807)"), Some(i64::MAX));
    assert_eq!(unread_count_from_title("(9223372036854775808)"), None);
    assert_eq!(unread_count_from_title("(99999999999999999999999)"), None);
}

#[test]
fn parse_i64_like_std() {
    for text in ["0", "-0", "+15", "-9223372036854775808", "9223372036854775807", "", "-", "1a", "12 "] {
        assert_eq!(parse_i64_chars(&chars(text)), text.parse::<i64>().ok(), "{text}");
    }
}

#[test]
fn badge_shows_new_count_once() {
    let mut state = None;
    assert_eq!(update_taskbar_badge(&mut state, Some(3)), BadgeRefresh::Show(Some(3)));
    assert_eq!(state, Some(3));
    assert_eq!(update_taskbar_badge(&mut state, Some(3)), BadgeRefresh::Unchanged);
    assert_eq!(update_taskbar_badge(&mut state, Some(4)), BadgeRefresh::Show(Some(4)));
    assert_eq!(state, Some(4));
}

#[test]
fn badge_ignores_missing_count() {
    let mut state = Some(2);
    assert_eq!(update_taskbar_badge(&mut state, None), BadgeRefresh::Unchanged);
    assert_eq!(state, Some(2));
}

#[test]
fn badge_clear() {
    let mut state = Some(2);
    assert_eq!(clear_taskbar_badge(&mut state), BadgeRefresh::Show(None));
    assert_eq!(state, None);
    assert_eq!(clear_taskbar_badge(&mut state), BadgeRefresh::Unchanged);
    assert_eq!(apply_taskbar_badge(&mut state, BadgeUpdate::Clear), BadgeRefresh::Unchanged);
}

#[test]
fn tray_dot_only_for_positive_counts() {
    assert!(tray_icon_has_unread_dot(Some(1)));
    assert!(!tray_icon_has_unread_dot(Some(0)));
    assert!(!tray_icon_has_unread_dot(None));
}

#[test]
fn digit_patterns() {
    assert_eq!(
        digit_pattern('1'),
        [
            [false, true, false],
            [true, true, false],
            [false, true, false],
            [false, true, false],
            [false, true, false],
        ]
    );
    assert_eq!(digit_pattern('8')[1], [true, false, true]);
    assert_eq!(digit_pattern('x'), [[false; 3]; 5]);
}

#[test]
fn overlay_icon_single_digit() {
    let icon = overlay_icon_for_count(1);
    assert_eq!(icon.len(), 32 * 32 * 4);
    assert_eq!(pixel(&icon, 14, 8), TEXT);
    assert_eq!(pixel(&icon, 15, 10), TEXT);
    assert_eq!(pixel(&icon, 11, 8), DISC);
    assert_eq!(pixel(&icon, 0, 16), DISC);
    assert_eq!(pixel(&icon, 0, 0), CLEAR);
    assert_eq!(pixel(&icon, 1, 5), CLEAR);
}

#[test]
fn overlay_icon_two_digits() {
    let icon = overlay_icon_for_count(42);
    assert_eq!(pixel(&icon, 9, 11), TEXT);
    assert_eq!(pixel(&icon, 11, 11), DISC);
    assert_eq!(pixel(&icon, 17, 11), TEXT);
    assert_eq!(pixel(&icon, 22, 12), TEXT);
    assert_eq!(pixel(&icon, 23, 11), DISC);
}

#[test]
fn overlay_icon_clamps_count() {
    assert_eq!(overlay_icon_for_count(0), overlay_icon_for_count(1));
    assert_eq!(overlay_icon_for_count(-8), overlay_icon_for_count(1));
    assert_eq!(overlay_icon_for_count(150), overlay_icon_for_count(99));
    assert_ne!(overlay_icon_for_count(7), overlay_icon_for_count(8));
}
