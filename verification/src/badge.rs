//! Unread-count badge: reading the count out of the page title, deciding when
//! the taskbar badge and the tray dot change, and drawing the 32×32 overlay
//! icon that shows the count.

use vstd::prelude::*;

use crate::text::{
    chars_of, decimal, decimal_of, find_char, first_index_of, slice_chars, trim, trim_end_char,
    trim_end_matches_char, trim_whitespace,
};

verus! {

// ---------------------------------------------------------------------------
// Unread count in the document title
// ---------------------------------------------------------------------------

/// Value of an ASCII digit character.
pub open spec fn digit_value(c: char) -> int {
    (c as u32) - 48
}

/// Whether `c` is one of '0'..='9'.
pub open spec fn is_ascii_digit(c: char) -> bool {
    '0' <= c && c <= '9'
}

/// The number written by a sequence of ASCII digits.
pub open spec fn digits_value(s: Seq<char>) -> int
    decreases s.len(),
{
    if s.len() == 0 {
        0
    } else {
        digits_value(s.drop_last()) * 10 + digit_value(s.last())
    }
}

/// Number of sign characters (`+` or `-`) that start `s`: 0 or 1.
pub open spec fn sign_len(s: Seq<char>) -> int {
    if s.len() > 0 && (s[0] == '+' || s[0] == '-') {
        1
    } else {
        0
    }
}

/// Every character of `s` is an ASCII digit.
pub open spec fn all_ascii_digits(s: Seq<char>) -> bool {
    forall|i: int| 0 <= i < s.len() ==> is_ascii_digit(#[trigger] s[i])
}

/// What `str::parse::<i64>` accepts: an optional `+` or `-`, then at least one
/// ASCII digit and nothing else, with a value that fits in an `i64`.
pub open spec fn parse_i64(s: Seq<char>) -> Option<int> {
    let digits = s.subrange(sign_len(s), s.len() as int);
    let value = if sign_len(s) == 1 && s[0] == '-' {
        -digits_value(digits)
    } else {
        digits_value(digits)
    };
    if digits.len() == 0 || !all_ascii_digits(digits) {
        None
    } else if i64::MIN <= value && value <= i64::MAX {
        Some(value)
    } else {
        None
    }
}

/// The unread count shown in a title such as "(3) Messenger": the text between
/// the first '(' and the first ')' after it, trimmed, without trailing '+',
/// read as an integer, and only when it is positive.
pub open spec fn title_unread_count(title: Seq<char>) -> Option<int> {
    match first_index_of(title, '(') {
        None => None,
        Some(open) => {
            let rest = title.subrange(open + 1, title.len() as int);
            match first_index_of(rest, ')') {
                None => None,
                Some(close) => {
                    let inner = trim_end_char(trim(rest.subrange(0, close)), '+');
                    match parse_i64(inner) {
                        Some(v) => if v > 0 {
                            Some(v)
                        } else {
                            None
                        },
                        None => None,
                    }
                },
            }
        },
    }
}

proof fn lemma_digits_value_nonneg(s: Seq<char>)
    requires
        forall|i: int| 0 <= i < s.len() ==> is_ascii_digit(#[trigger] s[i]),
    ensures
        digits_value(s) >= 0,
    decreases s.len(),
{
    if s.len() > 0 {
        lemma_digits_value_nonneg(s.drop_last());
    }
}

/// A longer run of digits never has a smaller value than its prefix.
proof fn lemma_digits_value_grows(s: Seq<char>, k: int)
    requires
        0 <= k <= s.len(),
        forall|i: int| 0 <= i < s.len() ==> is_ascii_digit(#[trigger] s[i]),
    ensures
        digits_value(s.take(k)) <= digits_value(s),
    decreases s.len() - k,
{
    if k < s.len() {
        lemma_digits_value_grows(s, k + 1);
        assert(s.take(k + 1).drop_last() =~= s.take(k));
        lemma_digits_value_nonneg(s.take(k));
    } else {
        assert(s.take(k) =~= s);
    }
}

/// Once a digit prefix is worth more than `u64::MAX`, the whole run does not
/// fit in an `i64`, whatever its sign.
proof fn lemma_too_long_prefix(s: Seq<char>, k: int)
    requires
        0 <= k <= s.subrange(sign_len(s), s.len() as int).len(),
        digits_value(s.subrange(sign_len(s), s.len() as int).take(k)) > u64::MAX,
    ensures
        parse_i64(s) is None,
{
    let digits = s.subrange(sign_len(s), s.len() as int);
    if all_ascii_digits(digits) {
        lemma_digits_value_grows(digits, k);
    }
}

/// Reads a decimal `i64` the way `str::parse::<i64>` does.
pub fn parse_i64_chars(s: &Vec<char>) -> (res: Option<i64>)
    ensures
        res matches Some(v) ==> parse_i64(s@) == Some(v as int),
        res is None ==> parse_i64(s@) is None,
{
    if s.len() == 0 {
        return None;
    }
    let negative = s[0] == '-';
    let start: usize = if s[0] == '+' || s[0] == '-' {
        1
    } else {
        0
    };
    let ghost digits = s@.subrange(sign_len(s@), s@.len() as int);
    assert(start == sign_len(s@));
    if start == s.len() {
        return None;
    }
    let mut magnitude: u64 = 0;
    let mut i: usize = start;
    while i < s.len()
        invariant
            start <= i <= s.len(),
            start == sign_len(s@),
            digits == s@.subrange(start as int, s@.len() as int),
            forall|k: int| 0 <= k < i - start ==> is_ascii_digit(#[trigger] digits[k]),
            magnitude as int == digits_value(digits.take(i - start)),
        decreases s.len() - i,
    {
        let c = s[i];
        if !('0' <= c && c <= '9') {
            assert(!is_ascii_digit(digits[i - start]));
            return None;
        }
        let d: u64 = (c as u32 - 48) as u64;
        proof {
            assert(digits.take(i - start + 1).drop_last() =~= digits.take(i - start));
            assert(digits.take(i - start + 1).last() == c);
        }
        let next = match magnitude.checked_mul(10) {
            None => None,
            Some(m) => m.checked_add(d),
        };
        match next {
            None => {
                proof {
                    lemma_too_long_prefix(s@, i - start + 1);
                }
                return None;
            },
            Some(v) => {
                magnitude = v;
            },
        }
        i = i + 1;
    }
    assert(digits.take(digits.len() as int) =~= digits);
    if negative {
        if magnitude <= 0x8000_0000_0000_0000u64 {
            if magnitude == 0x8000_0000_0000_0000u64 {
                Some(i64::MIN)
            } else {
                Some(-(magnitude as i64))
            }
        } else {
            None
        }
    } else {
        if magnitude <= 0x7fff_ffff_ffff_ffffu64 {
            Some(magnitude as i64)
        } else {
            None
        }
    }
}

/// The unread count that a Messenger page title announces, if any.
pub fn unread_count_from_title(title: &str) -> (res: Option<i64>)
    ensures
        res matches Some(v) ==> title_unread_count(title@) == Some(v as int) && v > 0,
        res is None ==> title_unread_count(title@) is None,
{
    let t = chars_of(title);
    let open = match find_char(&t, '(') {
        Some(i) => i,
        None => return None,
    };
    assert(open < t.len());
    let rest = slice_chars(&t, open + 1, t.len());
    let close = match find_char(&rest, ')') {
        Some(i) => i,
        None => return None,
    };
    let inside = slice_chars(&rest, 0, close);
    let trimmed = trim_whitespace(&inside);
    let number = trim_end_matches_char(&trimmed, '+');
    match parse_i64_chars(&number) {
        Some(v) => if v > 0 {
            Some(v)
        } else {
            None
        },
        None => None,
    }
}

// ---------------------------------------------------------------------------
// Badge and tray state
// ---------------------------------------------------------------------------

/// Whether the taskbar badge is in use at all.
pub const ENABLE_TASKBAR_BADGE: bool = true;

/// A request to change the taskbar badge.
pub enum BadgeUpdate {
    /// A count read from the title; `None` leaves the badge alone.
    FromTitle(Option<i64>),
    /// Remove the badge.
    Clear,
}

/// What the caller has to do to the window and the tray after an update.
#[derive(PartialEq, Eq, Structural, Debug, Clone, Copy)]
pub enum BadgeRefresh {
    /// Nothing changed.
    Unchanged,
    /// Badges are switched off: clear the badge and the tray dot.
    Disabled,
    /// Show this count on the taskbar (none: clear it) and refresh the tray dot.
    Show(Option<i64>),
}

/// The badge value that an update asks for, or `None` when it asks for nothing.
pub open spec fn badge_target(update: BadgeUpdate) -> Option<Option<i64>> {
    match update {
        BadgeUpdate::FromTitle(None) => None,
        BadgeUpdate::FromTitle(Some(c)) => Some(Some(c)),
        BadgeUpdate::Clear => Some(None),
    }
}

/// The remembered value and the refresh after `update`.
pub open spec fn spec_apply_badge(current: Option<i64>, update: BadgeUpdate) -> (Option<i64>, BadgeRefresh) {
    if !ENABLE_TASKBAR_BADGE {
        (current, BadgeRefresh::Disabled)
    } else {
        match badge_target(update) {
            None => (current, BadgeRefresh::Unchanged),
            Some(target) => if target == current {
                (current, BadgeRefresh::Unchanged)
            } else {
                (target, BadgeRefresh::Show(target))
            },
        }
    }
}

/// Applies `update` to the remembered badge value `current`: the badge is only
/// touched when the requested value differs from what is shown.
pub fn apply_taskbar_badge(current: &mut Option<i64>, update: BadgeUpdate) -> (res: BadgeRefresh)
    ensures
        (*final(current), res) == spec_apply_badge(*old(current), update),
{
    if !ENABLE_TASKBAR_BADGE {
        return BadgeRefresh::Disabled;
    }
    let target = match update {
        BadgeUpdate::FromTitle(None) => return BadgeRefresh::Unchanged,
        BadgeUpdate::FromTitle(count) => count,
        BadgeUpdate::Clear => None,
    };
    if *current == target {
        return BadgeRefresh::Unchanged;
    }
    *current = target;
    BadgeRefresh::Show(target)
}

/// Badge update for a count read from the title.
pub fn update_taskbar_badge(current: &mut Option<i64>, unread_count: Option<i64>) -> (res: BadgeRefresh)
    ensures
        (*final(current), res) == spec_apply_badge(*old(current), BadgeUpdate::FromTitle(unread_count)),
{
    apply_taskbar_badge(current, BadgeUpdate::FromTitle(unread_count))
}

/// Badge update that removes the badge.
pub fn clear_taskbar_badge(current: &mut Option<i64>) -> (res: BadgeRefresh)
    ensures
        (*final(current), res) == spec_apply_badge(*old(current), BadgeUpdate::Clear),
{
    apply_taskbar_badge(current, BadgeUpdate::Clear)
}

/// Whether the tray icon carries the red unread dot for this count.
pub fn tray_icon_has_unread_dot(unread_count: Option<i64>) -> (res: bool)
    ensures
        res == (unread_count matches Some(c) && c > 0),
{
    match unread_count {
        Some(c) => c > 0,
        None => false,
    }
}

// ---------------------------------------------------------------------------
// The overlay icon
// ---------------------------------------------------------------------------

/// The 3×5 glyph of a decimal digit, row by row; other characters are blank.
pub open spec fn glyph(d: char) -> Seq<Seq<bool>> {
    let t = true;
    let f = false;
    if d == '0' {
        seq![seq![t, t, t], seq![t, f, t], seq![t, f, t], seq![t, f, t], seq![t, t, t]]
    } else if d == '1' {
        seq![seq![f, t, f], seq![t, t, f], seq![f, t, f], seq![f, t, f], seq![f, t, f]]
    } else if d == '2' {
        seq![seq![t, t, t], seq![f, f, t], seq![t, t, t], seq![t, f, f], seq![t, t, t]]
    } else if d == '3' {
        seq![seq![t, t, t], seq![f, f, t], seq![t, t, t], seq![f, f, t], seq![t, t, t]]
    } else if d == '4' {
        seq![seq![t, f, t], seq![t, f, t], seq![t, t, t], seq![f, f, t], seq![f, f, t]]
    } else if d == '5' {
        seq![seq![t, t, t], seq![t, f, f], seq![t, t, t], seq![f, f, t], seq![t, t, t]]
    } else if d == '6' {
        seq![seq![t, t, t], seq![t, f, f], seq![t, t, t], seq![t, f, t], seq![t, t, t]]
    } else if d == '7' {
        seq![seq![t, t, t], seq![f, f, t], seq![f, t, f], seq![f, t, f], seq![f, t, f]]
    } else if d == '8' {
        seq![seq![t, t, t], seq![t, f, t], seq![t, t, t], seq![t, f, t], seq![t, t, t]]
    } else if d == '9' {
        seq![seq![t, t, t], seq![t, f, t], seq![t, t, t], seq![f, f, t], seq![t, t, t]]
    } else {
        seq![seq![f, f, f], seq![f, f, f], seq![f, f, f], seq![f, f, f], seq![f, f, f]]
    }
}

/// Whether cell (`row`, `col`) of the glyph of `d` is lit.
pub open spec fn glyph_cell(d: char, row: int, col: int) -> bool {
    glyph(d)[row][col]
}

/// The 5 rows of 3 cells of the glyph for `digit`.
pub fn digit_pattern(digit: char) -> (res: [[bool; 3]; 5])
    ensures
        forall|r: int, c: int|
            0 <= r < 5 && 0 <= c < 3 ==> #[trigger] res@[r]@[c] == glyph_cell(digit, r, c),
{
    let t = true;
    let f = false;
    let res = match digit {
        '0' => [[t, t, t], [t, f, t], [t, f, t], [t, f, t], [t, t, t]],
        '1' => [[f, t, f], [t, t, f], [f, t, f], [f, t, f], [f, t, f]],
        '2' => [[t, t, t], [f, f, t], [t, t, t], [t, f, f], [t, t, t]],
        '3' => [[t, t, t], [f, f, t], [t, t, t], [f, f, t], [t, t, t]],
        '4' => [[t, f, t], [t, f, t], [t, t, t], [f, f, t], [f, f, t]],
        '5' => [[t, t, t], [t, f, f], [t, t, t], [f, f, t], [t, t, t]],
        '6' => [[t, t, t], [t, f, f], [t, t, t], [t, f, t], [t, t, t]],
        '7' => [[t, t, t], [f, f, t], [f, t, f], [f, t, f], [f, t, f]],
        '8' => [[t, t, t], [t, f, t], [t, t, t], [t, f, t], [t, t, t]],
        '9' => [[t, t, t], [t, f, t], [t, t, t], [f, f, t], [t, t, t]],
        _ => [[f, f, f], [f, f, f], [f, f, f], [f, f, f], [f, f, f]],
    };
    res
}

/// The count that the icon shows: at least 1 and at most 99.
pub open spec fn clamp_count(count: int) -> int {
    if count < 1 {
        1
    } else if count > 99 {
        99
    } else {
        count
    }
}

/// The digits drawn on the icon.
pub open spec fn badge_label(count: int) -> Seq<char> {
    decimal(clamp_count(count) as nat)
}

/// Side of one glyph cell in pixels: 3 for one digit, 2 for two.
pub open spec fn badge_scale(count: int) -> int {
    if badge_label(count).len() == 1 {
        3
    } else {
        2
    }
}

/// Width of the whole label: the glyphs (3 cells each) and one cell of gap
/// between neighbours.
pub open spec fn badge_text_width(count: int) -> int {
    let n: int = badge_label(count).len() as int;
    let s: int = badge_scale(count);
    n * (3 * s) + (n - 1) * s
}

/// Left edge of the label, centred in the 32-pixel icon.
pub open spec fn badge_start_x(count: int) -> int {
    (32 - badge_text_width(count)) / 2
}

/// Top edge of the label, centred in the 32-pixel icon.
pub open spec fn badge_start_y(count: int) -> int {
    (32 - 5 * badge_scale(count)) / 2
}

/// Left edge of glyph number `d`.
pub open spec fn glyph_left(count: int, d: int) -> int {
    badge_start_x(count) + d * (4 * badge_scale(count))
}

/// Pixel (`x`, `y`) lies in the block of lit cell (`r`, `c`) of glyph `d`.
pub open spec fn cell_covers(count: int, d: int, r: int, c: int, x: int, y: int) -> bool {
    let s: int = badge_scale(count);
    &&& 0 <= d < badge_label(count).len()
    &&& 0 <= r < 5
    &&& 0 <= c < 3
    &&& glyph_cell(badge_label(count)[d], r, c)
    &&& glyph_left(count, d) + c * s <= x < glyph_left(count, d) + (c + 1) * s
    &&& badge_start_y(count) + r * s <= y < badge_start_y(count) + (r + 1) * s
}

/// Pixel (`x`, `y`) belongs to the drawn digits.
pub open spec fn text_covers(count: int, x: int, y: int) -> bool {
    exists|d: int, r: int, c: int| #[trigger] cell_covers(count, d, r, c, x, y)
}

/// Four times the squared distance of the centre of pixel (`x`, `y`) from the
/// centre of the icon, (16, 16).
pub open spec fn ring_measure(x: int, y: int) -> int {
    (2 * x - 31) * (2 * x - 31) + (2 * y - 31) * (2 * y - 31)
}

/// Colour of the digits.
pub open spec fn badge_text_rgba() -> Seq<u8> {
    seq![236u8, 238u8, 245u8, 255u8]
}

/// Colour of the disc (radius 15).
pub open spec fn badge_background_rgba() -> Seq<u8> {
    seq![41u8, 43u8, 51u8, 245u8]
}

/// Colour of the rim (radius 15 to 16).
pub open spec fn badge_border_rgba() -> Seq<u8> {
    seq![41u8, 43u8, 51u8, 245u8]
}

/// The RGBA value of pixel (`x`, `y`) of the overlay icon for `count`.
pub open spec fn overlay_pixel(count: int, x: int, y: int) -> Seq<u8> {
    if text_covers(count, x, y) {
        badge_text_rgba()
    } else if ring_measure(x, y) <= 4 * 15 * 15 {
        badge_background_rgba()
    } else if ring_measure(x, y) <= 4 * 16 * 16 {
        badge_border_rgba()
    } else {
        seq![0u8, 0u8, 0u8, 0u8]
    }
}

/// The four bytes of pixel (`x`, `y`) in a row-major 32-pixel-wide RGBA buffer.
pub open spec fn pixel_at(rgba: Seq<u8>, x: int, y: int) -> Seq<u8> {
    rgba.subrange(4 * (32 * y + x), 4 * (32 * y + x) + 4)
}

pub(crate) proof fn lemma_badge_label(count: int)
    ensures
        1 <= clamp_count(count) <= 99,
        clamp_count(count) < 10 ==> badge_label(count) == seq![crate::text::digit_char(clamp_count(count) as nat)],
        clamp_count(count) >= 10 ==> badge_label(count) == seq![
            crate::text::digit_char((clamp_count(count) / 10) as nat),
            crate::text::digit_char((clamp_count(count) % 10) as nat),
        ],
        badge_label(count).len() == (if clamp_count(count) < 10 { 1int } else { 2int }),
        badge_scale(count) == (if clamp_count(count) < 10 { 3int } else { 2int }),
        badge_text_width(count) == (if clamp_count(count) < 10 { 9int } else { 14int }),
        badge_start_x(count) == (if clamp_count(count) < 10 { 11int } else { 9int }),
        badge_start_y(count) == (if clamp_count(count) < 10 { 8int } else { 11int }),
{
    let c: int = clamp_count(count);
    reveal_with_fuel(decimal, 2);
    if c < 10 {
        assert(badge_label(count) =~= seq![crate::text::digit_char(c as nat)]);
    } else {
        assert(decimal((c / 10) as nat) =~= seq![crate::text::digit_char((c / 10) as nat)]);
        assert(badge_label(count) =~= seq![
            crate::text::digit_char((c / 10) as nat),
            crate::text::digit_char((c % 10) as nat),
        ]);
    }
}

/// With a cell side of 2 or 3, a non-negative offset falls in block `v / s`.
proof fn lemma_block_index(v: int, s: int, k: int)
    requires
        s == 2 || s == 3,
        0 <= k,
    ensures
        (k * s <= v < (k + 1) * s) <==> (0 <= v && v / s == k),
{
    if s == 2 {
        assert((k * 2 <= v < (k + 1) * 2) <==> (0 <= v && v / 2 == k));
    } else {
        assert((k * 3 <= v < (k + 1) * 3) <==> (0 <= v && v / 3 == k));
    }
}

proof fn lemma_glyph_left_step(count: int, d: int)
    ensures
        glyph_left(count, d + 1) == glyph_left(count, d) + 4 * badge_scale(count),
{
    let s: int = badge_scale(count);
    assert((d + 1) * (4 * s) == d * (4 * s) + 4 * s) by (nonlinear_arith);
}

/// Appends the four bytes of one pixel.
fn push_rgba(rgba: &mut Vec<u8>, r: u8, g: u8, b: u8, a: u8)
    ensures
        final(rgba)@ == old(rgba)@ + seq![r, g, b, a],
{
    rgba.push(r);
    rgba.push(g);
    rgba.push(b);
    rgba.push(a);
    assert(final(rgba)@ =~= old(rgba)@ + seq![r, g, b, a]);
}

/// Whether pixel (`x`, `y`) belongs to the digits of the label.
fn label_covers(
    label: &Vec<char>,
    scale: i32,
    start_x: i32,
    start_y: i32,
    x: i32,
    y: i32,
    Ghost(count): Ghost<int>,
) -> (res: bool)
    requires
        label@ == badge_label(count),
        scale == badge_scale(count),
        start_x == badge_start_x(count),
        start_y == badge_start_y(count),
        0 <= x < 32,
        0 <= y < 32,
    ensures
        res == text_covers(count, x as int, y as int),
{
    proof {
        lemma_badge_label(count);
    }
    let mut left: i32 = start_x;
    let mut d: usize = 0;
    while d < label.len()
        invariant
            label@ == badge_label(count),
            scale == badge_scale(count),
            start_x == badge_start_x(count),
            start_y == badge_start_y(count),
            0 <= x < 32,
            0 <= y < 32,
            1 <= label@.len() <= 2,
            scale == 2 || scale == 3,
            0 <= start_x <= 11,
            0 <= start_y <= 11,
            d <= label.len(),
            left == glyph_left(count, d as int),
            (scale == 3 && label@.len() == 1 && start_x == 11 && left == 11 + 12 * d) || (scale == 2
                && label@.len() == 2 && start_x == 9 && left == 9 + 8 * d),
            forall|e: int, r: int, c: int| 0 <= e < d ==> !#[trigger] cell_covers(count, e, r, c, x as int, y as int),
        decreases label.len() - d,
    {
        let rx: i32 = x - left;
        let ry: i32 = y - start_y;
        if 0 <= rx && rx < 3 * scale && 0 <= ry && ry < 5 * scale {
            let col: i32 = rx / scale;
            let row: i32 = ry / scale;
            proof {
                lemma_block_index(rx as int, scale as int, col as int);
                lemma_block_index(ry as int, scale as int, row as int);
                if scale == 2 {
                    assert(0 <= col < 3 && 0 <= row < 5);
                } else {
                    assert(0 <= col < 3 && 0 <= row < 5);
                }
            }
            let pattern = digit_pattern(label[d]);
            let lit = pattern[row as usize][col as usize];
            if lit {
                assert(cell_covers(count, d as int, row as int, col as int, x as int, y as int));
                return true;
            }
            assert forall|r: int, c: int| !#[trigger] cell_covers(count, d as int, r, c, x as int, y as int) by {
                if cell_covers(count, d as int, r, c, x as int, y as int) {
                    lemma_block_index(rx as int, scale as int, c);
                    lemma_block_index(ry as int, scale as int, r);
                }
            }
        } else {
            assert forall|r: int, c: int| !#[trigger] cell_covers(count, d as int, r, c, x as int, y as int) by {
                if cell_covers(count, d as int, r, c, x as int, y as int) {
                    lemma_block_index(rx as int, scale as int, c);
                    lemma_block_index(ry as int, scale as int, r);
                    if scale == 2 {
                        assert(c * 2 <= 4 && r * 2 <= 8);
                    } else {
                        assert(c * 3 <= 6 && r * 3 <= 12);
                    }
                }
            }
        }
        proof {
            lemma_glyph_left_step(count, d as int);
        }
        left = left + 4 * scale;
        d = d + 1;
    }
    assert forall|e: int, r: int, c: int| !#[trigger] cell_covers(count, e, r, c, x as int, y as int) by {}
    false
}

/// The 32×32 RGBA overlay icon that shows `count` (clamped to 1..=99) in light
/// pixel digits on a dark disc; pixels outside the disc are transparent.
pub fn overlay_icon_for_count(count: i64) -> (rgba: Vec<u8>)
    ensures
        rgba@.len() == 4 * 32 * 32,
        forall|x: int, y: int|
            0 <= x < 32 && 0 <= y < 32 ==> #[trigger] pixel_at(rgba@, x, y) == overlay_pixel(
                count as int,
                x,
                y,
            ),
{
    let clamped: i64 = if count < 1 {
        1
    } else if count > 99 {
        99
    } else {
        count
    };
    let label = decimal_of(clamped as u64);
    proof {
        lemma_badge_label(count as int);
        assert(clamped as int == clamp_count(count as int));
    }
    let scale: i32 = if label.len() == 1 {
        3
    } else {
        2
    };
    let digit_width: i32 = 3 * scale;
    let digit_height: i32 = 5 * scale;
    let gap: i32 = scale;
    let text_width: i32 = if label.len() == 1 {
        digit_width
    } else {
        2 * digit_width + gap
    };
    let start_x: i32 = (32 - text_width) / 2;
    let start_y: i32 = (32 - digit_height) / 2;
    assert(start_x == badge_start_x(count as int));
    assert(start_y == badge_start_y(count as int));

    let mut rgba: Vec<u8> = Vec::new();
    let mut y: i32 = 0;
    while y < 32
        invariant
            label@ == badge_label(count as int),
            scale == badge_scale(count as int),
            start_x == badge_start_x(count as int),
            start_y == badge_start_y(count as int),
            0 <= y <= 32,
            rgba@.len() == 128 * y,
            forall|px: int, py: int|
                0 <= px < 32 && 0 <= py < y ==> #[trigger] pixel_at(rgba@, px, py) == overlay_pixel(
                    count as int,
                    px,
                    py,
                ),
        decreases 32 - y,
    {
        let mut x: i32 = 0;
        while x < 32
            invariant
                label@ == badge_label(count as int),
                scale == badge_scale(count as int),
                start_x == badge_start_x(count as int),
                start_y == badge_start_y(count as int),
                0 <= y < 32,
                0 <= x <= 32,
                rgba@.len() == 128 * y + 4 * x,
                forall|px: int, py: int|
                    0 <= px < 32 && 0 <= py < 32 && 32 * py + px < 32 * y + x
                        ==> #[trigger] pixel_at(rgba@, px, py) == overlay_pixel(count as int, px, py),
            decreases 32 - x,
        {
            let dx: i32 = 2 * x - 31;
            let dy: i32 = 2 * y - 31;
            assert(dx * dx <= 961) by (nonlinear_arith)
                requires
                    -31 <= dx <= 31,
            ;
            assert(dy * dy <= 961) by (nonlinear_arith)
                requires
                    -31 <= dy <= 31,
            ;
            assert(dx * dx >= 0) by (nonlinear_arith);
            assert(dy * dy >= 0) by (nonlinear_arith);
            let measure: i32 = dx * dx + dy * dy;
            let ghost before = rgba@;
            if label_covers(&label, scale, start_x, start_y, x, y, Ghost(count as int)) {
                push_rgba(&mut rgba, 236, 238, 245, 255);
            } else if measure <= 4 * 15 * 15 {
                push_rgba(&mut rgba, 41, 43, 51, 245);
            } else if measure <= 4 * 16 * 16 {
                push_rgba(&mut rgba, 41, 43, 51, 245);
            } else {
                push_rgba(&mut rgba, 0, 0, 0, 0);
            }
            proof {
                assert(measure == ring_measure(x as int, y as int));
                assert(pixel_at(rgba@, x as int, y as int) =~= overlay_pixel(count as int, x as int, y as int));
                assert forall|px: int, py: int|
                    0 <= px < 32 && 0 <= py < 32 && 32 * py + px < 32 * y + x + 1
                        implies #[trigger] pixel_at(rgba@, px, py) == overlay_pixel(count as int, px, py) by {
                    if 32 * py + px < 32 * y + x {
                        assert(pixel_at(rgba@, px, py) =~= pixel_at(before, px, py));
                    } else {
                        assert(px == x && py == y);
                    }
                }
            }
            x = x + 1;
        }
        y = y + 1;
    }
    rgba
}

// ---------------------------------------------------------------------------
// Laws
// ---------------------------------------------------------------------------

/// What the taskbar shows after a refresh, given what it showed before.
pub open spec fn shown_after(shown: Option<i64>, refresh: BadgeRefresh) -> Option<i64> {
    match refresh {
        BadgeRefresh::Unchanged => shown,
        BadgeRefresh::Disabled => None,
        BadgeRefresh::Show(count) => count,
    }
}

/// The remembered value always equals what the taskbar shows: if it did
/// before an update, it does after it.
pub proof fn law_badge_state_matches_taskbar(current: Option<i64>, update: BadgeUpdate)
    requires
        ENABLE_TASKBAR_BADGE,
    ensures
        ({
            let (next, refresh) = spec_apply_badge(current, update);
            shown_after(current, refresh) == next
        }),
{
}

/// Repeating an update changes nothing the second time.
pub proof fn law_repeated_update_is_unchanged(current: Option<i64>, update: BadgeUpdate)
    ensures
        ({
            let (next, _) = spec_apply_badge(current, update);
            spec_apply_badge(next, update) == (next, BadgeRefresh::Unchanged)
        }),
{
}

/// A title without a count (and focusing the window) never touches the
/// badge.
pub proof fn law_no_count_leaves_badge(current: Option<i64>)
    ensures
        spec_apply_badge(current, BadgeUpdate::FromTitle(None)).0 == current,
        spec_apply_badge(current, BadgeUpdate::FromTitle(None)).1 != BadgeRefresh::Show(None),
{
}

/// Clearing leaves no badge.
pub proof fn law_clear_removes_badge(current: Option<i64>)
    requires
        ENABLE_TASKBAR_BADGE,
    ensures
        spec_apply_badge(current, BadgeUpdate::Clear).0 == None::<i64>,
{
}

/// The overlay icon only depends on the count clamped to 1..=99.
pub proof fn law_overlay_icon_clamps(count: int, x: int, y: int)
    ensures
        overlay_pixel(count, x, y) == overlay_pixel(clamp_count(count), x, y),
{
    assert(clamp_count(clamp_count(count)) == clamp_count(count));
    assert(badge_label(clamp_count(count)) == badge_label(count));
    assert forall|d: int, r: int, c: int|
        cell_covers(count, d, r, c, x, y) == cell_covers(clamp_count(count), d, r, c, x, y) by {}
    let k: int = clamp_count(count);
    if text_covers(count, x, y) {
        let (d, r, c) = choose|d: int, r: int, c: int| #[trigger] cell_covers(count, d, r, c, x, y);
        assert(cell_covers(k, d, r, c, x, y));
    }
    if text_covers(k, x, y) {
        let (d, r, c) = choose|d: int, r: int, c: int| #[trigger] cell_covers(k, d, r, c, x, y);
        assert(cell_covers(count, d, r, c, x, y));
    }
}

/// Pixels away from the digits and outside the rim of radius 16 are
/// transparent; the rest of the disc has the badge colour.
pub proof fn law_overlay_icon_disc(count: int, x: int, y: int)
    requires
        !text_covers(count, x, y),
    ensures
        ring_measure(x, y) > 4 * 16 * 16 ==> overlay_pixel(count, x, y) == seq![0u8, 0u8, 0u8, 0u8],
        ring_measure(x, y) <= 4 * 16 * 16 ==> overlay_pixel(count, x, y) == badge_background_rgba(),
{
}

} // verus!
