//! Laws that pin down what the library's rules are for, stated over inputs
//! and results: the unread count read from a title, the digit glyphs of the
//! overlay icon, when the taskbar badge changes, installing an update, and
//! which pages count as sign-in pages.

use vstd::prelude::*;

use crate::badge::{
    badge_background_rgba, badge_border_rgba, badge_label, badge_scale, badge_start_x,
    badge_start_y, badge_text_rgba, cell_covers, glyph_left, lemma_badge_label, overlay_pixel,
    text_covers, glyph_cell, all_ascii_digits, digit_value, digits_value, is_ascii_digit, parse_i64, sign_len,
    spec_apply_badge, title_unread_count, BadgeRefresh, BadgeUpdate, ENABLE_TASKBAR_BADGE,
};
use crate::text::{
    decimal, digit_char, first_index_of, is_whitespace, trim, trim_end, trim_end_char, trim_start,
};
use crate::navigation::{auth_path_at, path_is_under, spec_auth_navigation, spec_open_in_app};
use crate::text::ascii_lower;
use crate::updater::{spec_begin_install, spec_defer_update, UpdateStateView};
use crate::web_url::WebUrlView;
use crate::clipboard::{image_extension_at, media_route_at, spec_image_extension, spec_media_route};
use crate::text::{has_infix, has_suffix};

verus! {

// ---------------------------------------------------------------------------
// Unread count in the title
// ---------------------------------------------------------------------------

proof fn lemma_digit_char(d: nat)
    requires
        d < 10,
    ensures
        is_ascii_digit(digit_char(d)),
        digit_value(digit_char(d)) == d,
{
}

/// The decimal notation of `n` is a non-empty run of digits worth `n`.
proof fn lemma_decimal_reads_back(n: nat)
    ensures
        decimal(n).len() >= 1,
        all_ascii_digits(decimal(n)),
        digits_value(decimal(n)) == n,
    decreases n,
{
    if n < 10 {
        lemma_digit_char(n);
        let d = decimal(n);
        assert(d.drop_last() =~= Seq::<char>::empty());
        assert(digits_value(d.drop_last()) == 0);
        assert(d.last() == digit_char(n));
    } else {
        lemma_decimal_reads_back(n / 10);
        lemma_digit_char(n % 10);
        let d = decimal(n);
        assert(d.drop_last() =~= decimal(n / 10));
        assert(d.last() == digit_char(n % 10));
        assert(digits_value(d) == digits_value(decimal(n / 10)) * 10 + digit_value(digit_char(n % 10)));
        assert(all_ascii_digits(d)) by {
            assert forall|i: int| 0 <= i < d.len() implies is_ascii_digit(#[trigger] d[i]) by {
                if i < d.len() - 1 {
                    assert(d[i] == decimal(n / 10)[i]);
                }
            }
        }
    }
}

/// `k` is the first position of `c` in `s`.
proof fn lemma_first_index(s: Seq<char>, c: char, k: int)
    requires
        0 <= k < s.len(),
        s[k] == c,
        forall|j: int| 0 <= j < k ==> s[j] != c,
    ensures
        first_index_of(s, c) == Some(k),
{
    assert(exists|i: int| 0 <= i < s.len() && s[i] == c);
    let w = choose|i: int| 0 <= i < s.len() && s[i] == c && forall|j: int| 0 <= j < i ==> s[j] != c;
    assert(0 <= k < s.len() && s[k] == c && forall|j: int| 0 <= j < k ==> s[j] != c);
    if w < k {
        assert(s[w] != c);
    }
    if w > k {
        assert(s[k] != c);
    }
}

/// Removing trailing '+' from digits followed by `n` pluses gives the digits.
proof fn lemma_strip_pluses(digits: Seq<char>, n: nat)
    requires
        digits.len() >= 1,
        digits.last() != '+',
    ensures
        trim_end_char(digits + Seq::new(n, |i: int| '+'), '+') == digits,
    decreases n,
{
    let s = digits + Seq::new(n, |i: int| '+');
    if n == 0 {
        assert(s =~= digits);
    } else {
        assert(s.drop_last() =~= digits + Seq::new((n - 1) as nat, |i: int| '+'));
        lemma_strip_pluses(digits, (n - 1) as nat);
    }
}

/// Whitespace in front does not change trimming from the start.
proof fn lemma_trim_start_skips_space(ws: Seq<char>, t: Seq<char>)
    requires
        forall|i: int| 0 <= i < ws.len() ==> is_whitespace(#[trigger] ws[i]),
    ensures
        trim_start(ws + t) == trim_start(t),
    decreases ws.len(),
{
    if ws.len() > 0 {
        assert((ws + t).drop_first() =~= ws.drop_first() + t);
        lemma_trim_start_skips_space(ws.drop_first(), t);
    } else {
        assert(ws + t =~= t);
    }
}

/// Whitespace behind does not change trimming from the end.
proof fn lemma_trim_end_skips_space(t: Seq<char>, ws: Seq<char>)
    requires
        forall|i: int| 0 <= i < ws.len() ==> is_whitespace(#[trigger] ws[i]),
    ensures
        trim_end(t + ws) == trim_end(t),
    decreases ws.len(),
{
    if ws.len() > 0 {
        assert((t + ws).drop_last() =~= t + ws.drop_last());
        lemma_trim_end_skips_space(t, ws.drop_last());
    } else {
        assert(t + ws =~= t);
    }
}

/// The text between the parentheses of `prefix (inside) rest` is `inside`.
proof fn lemma_title_inside(prefix: Seq<char>, inside: Seq<char>, rest: Seq<char>)
    requires
        forall|i: int| 0 <= i < prefix.len() ==> prefix[i] != '(',
        forall|i: int| 0 <= i < inside.len() ==> inside[i] != ')',
    ensures
        title_unread_count(prefix + seq!['('] + inside + seq![')'] + rest) == match parse_i64(
            trim_end_char(trim(inside), '+'),
        ) {
            Some(v) => if v > 0 {
                Some(v)
            } else {
                None
            },
            None => None,
        },
{
    let title = prefix + seq!['('] + inside + seq![')'] + rest;
    let open = prefix.len() as int;
    assert(title[open] == '(');
    assert forall|j: int| 0 <= j < open implies title[j] != '(' by {
        assert(title[j] == prefix[j]);
    }
    lemma_first_index(title, '(', open);
    let after = title.subrange(open + 1, title.len() as int);
    assert(after =~= inside + seq![')'] + rest);
    let close = inside.len() as int;
    assert(after[close] == ')');
    assert forall|j: int| 0 <= j < close implies after[j] != ')' by {
        assert(after[j] == inside[j]);
    }
    lemma_first_index(after, ')', close);
    assert(after.subrange(0, close) =~= inside);
}

/// A count `v` of at least 1 in parentheses, possibly with '+' signs after it
/// and whitespace around it, after text without '(' and before any text, is
/// read back as `v`: "(1) Messenger" gives 1, "( 99+ ) Messenger" gives 99.
pub proof fn law_title_count_reads_back(
    prefix: Seq<char>,
    space_before: Seq<char>,
    v: nat,
    pluses: nat,
    space_after: Seq<char>,
    rest: Seq<char>,
)
    requires
        1 <= v <= i64::MAX,
        forall|i: int| 0 <= i < prefix.len() ==> prefix[i] != '(',
        forall|i: int| 0 <= i < space_before.len() ==> is_whitespace(#[trigger] space_before[i]),
        forall|i: int| 0 <= i < space_after.len() ==> is_whitespace(#[trigger] space_after[i]),
    ensures
        title_unread_count(
            prefix + seq!['('] + space_before + decimal(v) + Seq::new(pluses, |i: int| '+') + space_after
                + seq![')'] + rest,
        ) == Some(v as int),
{
    let digits = decimal(v);
    let plus = Seq::new(pluses, |i: int| '+');
    let core = digits + plus;
    let inside = space_before + core + space_after;
    lemma_decimal_reads_back(v);
    assert forall|i: int| 0 <= i < inside.len() implies inside[i] != ')' by {
        if i < space_before.len() {
            assert(inside[i] == space_before[i]);
            assert(is_whitespace(space_before[i]));
        } else if i < space_before.len() + digits.len() {
            assert(inside[i] == digits[i - space_before.len()]);
            assert(is_ascii_digit(digits[i - space_before.len()]));
        } else if i < space_before.len() + core.len() {
            assert(inside[i] == '+');
        } else {
            assert(inside[i] == space_after[i - space_before.len() - core.len()]);
            assert(is_whitespace(space_after[i - space_before.len() - core.len()]));
        }
    }
    assert(prefix + seq!['('] + space_before + digits + plus + space_after + seq![')'] + rest
        =~= prefix + seq!['('] + inside + seq![')'] + rest);
    lemma_title_inside(prefix, inside, rest);
    assert(is_ascii_digit(digits[0]));
    assert(is_ascii_digit(digits.last()));
    assert(core[0] == digits[0]);
    assert(!is_whitespace(core.last())) by {
        if pluses > 0 {
            assert(core.last() == '+');
        } else {
            assert(core.last() == digits.last());
        }
    }
    assert(inside =~= space_before + (core + space_after));
    lemma_trim_start_skips_space(space_before, core + space_after);
    assert((core + space_after)[0] == core[0]);
    assert(trim_start(core + space_after) == core + space_after);
    lemma_trim_end_skips_space(core, space_after);
    assert(trim_end(core) == core);
    assert(trim(inside) == core);
    lemma_strip_pluses(digits, pluses);
    assert(sign_len(digits) == 0);
    assert(digits.subrange(0, digits.len() as int) =~= digits);
    assert(parse_i64(digits) == Some(v as int));
}

/// A zero or negative number in the parentheses is no unread count:
/// "(0) Messenger" and "(-3) Messenger" give none.
pub proof fn law_title_non_positive_is_no_count(prefix: Seq<char>, negative: bool, v: nat, rest: Seq<char>)
    requires
        forall|i: int| 0 <= i < prefix.len() ==> prefix[i] != '(',
        !negative ==> v == 0,
    ensures
        title_unread_count(
            prefix + seq!['('] + (if negative {
                seq!['-']
            } else {
                Seq::<char>::empty()
            }) + decimal(v) + seq![')'] + rest,
        ) is None,
{
    let digits = decimal(v);
    let sign = if negative {
        seq!['-']
    } else {
        Seq::<char>::empty()
    };
    let inside = sign + digits;
    lemma_decimal_reads_back(v);
    assert forall|i: int| 0 <= i < inside.len() implies inside[i] != ')' by {
        if i < sign.len() {
            assert(inside[i] == '-');
        } else {
            assert(inside[i] == digits[i - sign.len()]);
            assert(is_ascii_digit(digits[i - sign.len()]));
        }
    }
    assert(prefix + seq!['('] + sign + digits + seq![')'] + rest =~= prefix + seq!['('] + inside + seq![')']
        + rest);
    lemma_title_inside(prefix, inside, rest);
    assert(is_ascii_digit(digits[0]));
    assert(is_ascii_digit(digits.last()));
    assert(inside[0] == '-' || inside[0] == digits[0]);
    assert(inside.last() == digits.last());
    assert(trim_start(inside) == inside);
    assert(trim_end(inside) == inside);
    assert(trim_end_char(inside, '+') == inside);
    assert(inside.subrange(sign_len(inside), inside.len() as int) =~= digits);
}

/// Without a '(' in the title, or without a ')' after the first '(', there
/// is no unread count.
pub proof fn law_title_without_parentheses_is_no_count(title: Seq<char>)
    ensures
        (forall|i: int| 0 <= i < title.len() ==> title[i] != '(') ==> title_unread_count(title) is None,
        (exists|k: int| 0 <= k < title.len() && title[k] == '(' && (forall|j: int| 0 <= j < k ==> title[j] != '(')
            && (forall|j: int| k < j < title.len() ==> title[j] != ')')) ==> title_unread_count(title) is None,
{
    if exists|k: int| 0 <= k < title.len() && title[k] == '(' && (forall|j: int| 0 <= j < k ==> title[j] != '(')
        && (forall|j: int| k < j < title.len() ==> title[j] != ')') {
        let k = choose|k: int| 0 <= k < title.len() && title[k] == '(' && (forall|j: int| 0 <= j < k ==> title[j] != '(')
            && (forall|j: int| k < j < title.len() ==> title[j] != ')');
        lemma_first_index(title, '(', k);
        let after = title.subrange(k + 1, title.len() as int);
        assert forall|j: int| 0 <= j < after.len() implies after[j] != ')' by {
            assert(after[j] == title[k + 1 + j]);
        }
    }
}

// ---------------------------------------------------------------------------
// Digit glyphs of the overlay icon
// ---------------------------------------------------------------------------

/// A glyph row as a number: the left cell counts 4, the middle 2, the right 1.
pub open spec fn glyph_row_code(d: char, r: int) -> int {
    (if glyph_cell(d, r, 0) {
        4int
    } else {
        0int
    }) + (if glyph_cell(d, r, 1) {
        2int
    } else {
        0int
    }) + (if glyph_cell(d, r, 2) {
        1int
    } else {
        0int
    })
}

/// The five row numbers of a glyph, top to bottom.
pub open spec fn glyph_code(d: char) -> Seq<int> {
    seq![glyph_row_code(d, 0), glyph_row_code(d, 1), glyph_row_code(d, 2), glyph_row_code(d, 3), glyph_row_code(d, 4)]
}

/// The digits are drawn as the usual 3×5 pixel figures; for instance '2' is a
/// full top row, the right cell, a full middle row, the left cell, a full
/// bottom row. Any other character draws nothing.
pub proof fn law_digit_glyphs(d: char)
    ensures
        glyph_code('0') == seq![7int, 5, 5, 5, 7],
        glyph_code('1') == seq![2int, 6, 2, 2, 2],
        glyph_code('2') == seq![7int, 1, 7, 4, 7],
        glyph_code('3') == seq![7int, 1, 7, 1, 7],
        glyph_code('4') == seq![5int, 5, 7, 1, 1],
        glyph_code('5') == seq![7int, 4, 7, 1, 7],
        glyph_code('6') == seq![7int, 4, 7, 5, 7],
        glyph_code('7') == seq![7int, 1, 2, 2, 2],
        glyph_code('8') == seq![7int, 5, 7, 5, 7],
        glyph_code('9') == seq![7int, 5, 7, 1, 7],
        !('0' <= d <= '9') ==> glyph_code(d) == seq![0int, 0, 0, 0, 0],
{
    assert(glyph_code('0') =~= seq![7int, 5, 5, 5, 7]);
    assert(glyph_code('1') =~= seq![2int, 6, 2, 2, 2]);
    assert(glyph_code('2') =~= seq![7int, 1, 7, 4, 7]);
    assert(glyph_code('3') =~= seq![7int, 1, 7, 1, 7]);
    assert(glyph_code('4') =~= seq![5int, 5, 7, 1, 1]);
    assert(glyph_code('5') =~= seq![7int, 4, 7, 1, 7]);
    assert(glyph_code('6') =~= seq![7int, 4, 7, 5, 7]);
    assert(glyph_code('7') =~= seq![7int, 1, 2, 2, 2]);
    assert(glyph_code('8') =~= seq![7int, 5, 7, 5, 7]);
    assert(glyph_code('9') =~= seq![7int, 5, 7, 1, 7]);
    if !('0' <= d <= '9') {
        assert(glyph_code(d) =~= seq![0int, 0, 0, 0, 0]);
    }
}

/// The digit whose glyph has these row numbers ('?' for none).
spec fn digit_of_code(code: Seq<int>) -> char {
    if code == seq![7int, 5, 5, 5, 7] {
        '0'
    } else if code == seq![2int, 6, 2, 2, 2] {
        '1'
    } else if code == seq![7int, 1, 7, 4, 7] {
        '2'
    } else if code == seq![7int, 1, 7, 1, 7] {
        '3'
    } else if code == seq![5int, 5, 7, 1, 1] {
        '4'
    } else if code == seq![7int, 4, 7, 1, 7] {
        '5'
    } else if code == seq![7int, 4, 7, 5, 7] {
        '6'
    } else if code == seq![7int, 1, 2, 2, 2] {
        '7'
    } else if code == seq![7int, 5, 7, 5, 7] {
        '8'
    } else if code == seq![7int, 5, 7, 1, 7] {
        '9'
    } else {
        '?'
    }
}

proof fn lemma_glyph_identifies_digit(d: char)
    requires
        '0' <= d <= '9',
    ensures
        digit_of_code(glyph_code(d)) == d,
{
    law_digit_glyphs(d);
    let u = d as u32;
    if u == 48 {
        assert(d == '0');
    } else if u == 49 {
        assert(d == '1');
        assert(seq![2int, 6, 2, 2, 2] != seq![7int, 5, 5, 5, 7]);
    } else if u == 50 {
        assert(d == '2');
        assert(seq![7int, 1, 7, 4, 7][1] != seq![7int, 5, 5, 5, 7][1]);
        assert(seq![7int, 1, 7, 4, 7][0] != seq![2int, 6, 2, 2, 2][0]);
    } else if u == 51 {
        assert(d == '3');
        assert(seq![7int, 1, 7, 1, 7][1] != seq![7int, 5, 5, 5, 7][1]);
        assert(seq![7int, 1, 7, 1, 7][0] != seq![2int, 6, 2, 2, 2][0]);
        assert(seq![7int, 1, 7, 1, 7][3] != seq![7int, 1, 7, 4, 7][3]);
    } else if u == 52 {
        assert(d == '4');
        assert(seq![5int, 5, 7, 1, 1][0] != seq![7int, 5, 5, 5, 7][0]);
        assert(seq![5int, 5, 7, 1, 1][0] != seq![2int, 6, 2, 2, 2][0]);
        assert(seq![5int, 5, 7, 1, 1][0] != seq![7int, 1, 7, 4, 7][0]);
        assert(seq![5int, 5, 7, 1, 1][0] != seq![7int, 1, 7, 1, 7][0]);
    } else if u == 53 {
        assert(d == '5');
        assert(seq![7int, 4, 7, 1, 7][1] != seq![7int, 5, 5, 5, 7][1]);
        assert(seq![7int, 4, 7, 1, 7][0] != seq![2int, 6, 2, 2, 2][0]);
        assert(seq![7int, 4, 7, 1, 7][1] != seq![7int, 1, 7, 4, 7][1]);
        assert(seq![7int, 4, 7, 1, 7][1] != seq![7int, 1, 7, 1, 7][1]);
        assert(seq![7int, 4, 7, 1, 7][0] != seq![5int, 5, 7, 1, 1][0]);
    } else if u == 54 {
        assert(d == '6');
        assert(seq![7int, 4, 7, 5, 7][1] != seq![7int, 5, 5, 5, 7][1]);
        assert(seq![7int, 4, 7, 5, 7][0] != seq![2int, 6, 2, 2, 2][0]);
        assert(seq![7int, 4, 7, 5, 7][1] != seq![7int, 1, 7, 4, 7][1]);
        assert(seq![7int, 4, 7, 5, 7][1] != seq![7int, 1, 7, 1, 7][1]);
        assert(seq![7int, 4, 7, 5, 7][0] != seq![5int, 5, 7, 1, 1][0]);
        assert(seq![7int, 4, 7, 5, 7][3] != seq![7int, 4, 7, 1, 7][3]);
    } else if u == 55 {
        assert(d == '7');
        assert(seq![7int, 1, 2, 2, 2][1] != seq![7int, 5, 5, 5, 7][1]);
        assert(seq![7int, 1, 2, 2, 2][0] != seq![2int, 6, 2, 2, 2][0]);
        assert(seq![7int, 1, 2, 2, 2][2] != seq![7int, 1, 7, 4, 7][2]);
        assert(seq![7int, 1, 2, 2, 2][2] != seq![7int, 1, 7, 1, 7][2]);
        assert(seq![7int, 1, 2, 2, 2][0] != seq![5int, 5, 7, 1, 1][0]);
        assert(seq![7int, 1, 2, 2, 2][1] != seq![7int, 4, 7, 1, 7][1]);
        assert(seq![7int, 1, 2, 2, 2][1] != seq![7int, 4, 7, 5, 7][1]);
    } else if u == 56 {
        assert(d == '8');
        assert(seq![7int, 5, 7, 5, 7][2] != seq![7int, 5, 5, 5, 7][2]);
        assert(seq![7int, 5, 7, 5, 7][0] != seq![2int, 6, 2, 2, 2][0]);
        assert(seq![7int, 5, 7, 5, 7][1] != seq![7int, 1, 7, 4, 7][1]);
        assert(seq![7int, 5, 7, 5, 7][1] != seq![7int, 1, 7, 1, 7][1]);
        assert(seq![7int, 5, 7, 5, 7][0] != seq![5int, 5, 7, 1, 1][0]);
        assert(seq![7int, 5, 7, 5, 7][1] != seq![7int, 4, 7, 1, 7][1]);
        assert(seq![7int, 5, 7, 5, 7][1] != seq![7int, 4, 7, 5, 7][1]);
        assert(seq![7int, 5, 7, 5, 7][1] != seq![7int, 1, 2, 2, 2][1]);
    } else {
        assert(d == '9');
        assert(seq![7int, 5, 7, 1, 7][2] != seq![7int, 5, 5, 5, 7][2]);
        assert(seq![7int, 5, 7, 1, 7][0] != seq![2int, 6, 2, 2, 2][0]);
        assert(seq![7int, 5, 7, 1, 7][1] != seq![7int, 1, 7, 4, 7][1]);
        assert(seq![7int, 5, 7, 1, 7][1] != seq![7int, 1, 7, 1, 7][1]);
        assert(seq![7int, 5, 7, 1, 7][0] != seq![5int, 5, 7, 1, 1][0]);
        assert(seq![7int, 5, 7, 1, 7][1] != seq![7int, 4, 7, 1, 7][1]);
        assert(seq![7int, 5, 7, 1, 7][1] != seq![7int, 4, 7, 5, 7][1]);
        assert(seq![7int, 5, 7, 1, 7][1] != seq![7int, 1, 2, 2, 2][1]);
        assert(seq![7int, 5, 7, 1, 7][3] != seq![7int, 5, 7, 5, 7][3]);
    }
}

/// Different digits have different glyphs: some cell is lit in one and not
/// in the other.
pub proof fn law_digit_glyphs_differ(d1: char, d2: char)
    requires
        '0' <= d1 <= '9',
        '0' <= d2 <= '9',
        d1 != d2,
    ensures
        exists|r: int, c: int| 0 <= r < 5 && 0 <= c < 3 && #[trigger] glyph_cell(d1, r, c) != glyph_cell(d2, r, c),
{
    lemma_glyph_identifies_digit(d1);
    lemma_glyph_identifies_digit(d2);
    if forall|r: int, c: int| 0 <= r < 5 && 0 <= c < 3 ==> #[trigger] glyph_cell(d1, r, c) == glyph_cell(d2, r, c) {
        assert(glyph_cell(d1, 0, 0) == glyph_cell(d2, 0, 0) && glyph_cell(d1, 0, 1) == glyph_cell(d2, 0, 1)
            && glyph_cell(d1, 0, 2) == glyph_cell(d2, 0, 2));
        assert(glyph_cell(d1, 1, 0) == glyph_cell(d2, 1, 0) && glyph_cell(d1, 1, 1) == glyph_cell(d2, 1, 1)
            && glyph_cell(d1, 1, 2) == glyph_cell(d2, 1, 2));
        assert(glyph_cell(d1, 2, 0) == glyph_cell(d2, 2, 0) && glyph_cell(d1, 2, 1) == glyph_cell(d2, 2, 1)
            && glyph_cell(d1, 2, 2) == glyph_cell(d2, 2, 2));
        assert(glyph_cell(d1, 3, 0) == glyph_cell(d2, 3, 0) && glyph_cell(d1, 3, 1) == glyph_cell(d2, 3, 1)
            && glyph_cell(d1, 3, 2) == glyph_cell(d2, 3, 2));
        assert(glyph_cell(d1, 4, 0) == glyph_cell(d2, 4, 0) && glyph_cell(d1, 4, 1) == glyph_cell(d2, 4, 1)
            && glyph_cell(d1, 4, 2) == glyph_cell(d2, 4, 2));
        assert(glyph_code(d1) =~= glyph_code(d2));
    }
}

/// In the icon of a single-digit count, the 3×3 pixel block of cell
/// (`r`, `c`) of the digit, starting at (11, 8), has the text colour exactly
/// when that cell of the digit's glyph is lit.
pub proof fn law_single_digit_icon_shows_glyph(count: int, r: int, c: int, i: int, j: int)
    requires
        1 <= count <= 9,
        0 <= r < 5,
        0 <= c < 3,
        0 <= i < 3,
        0 <= j < 3,
    ensures
        (overlay_pixel(count, 11 + 3 * c + i, 8 + 3 * r + j) == badge_text_rgba()) == glyph_cell(
            digit_char(count as nat),
            r,
            c,
        ),
{
    lemma_badge_label(count);
    let x = 11 + 3 * c + i;
    let y = 8 + 3 * r + j;
    let digit = badge_label(count)[0];
    assert(digit == digit_char(count as nat));
    assert(badge_scale(count) == 3);
    assert(glyph_left(count, 0) == 11) by {
        assert(0 * (4 * badge_scale(count)) == 0);
    }
    assert(c * badge_scale(count) == 3 * c);
    assert((c + 1) * badge_scale(count) == 3 * c + 3);
    assert(r * badge_scale(count) == 3 * r);
    assert((r + 1) * badge_scale(count) == 3 * r + 3);
    if glyph_cell(digit, r, c) {
        assert(cell_covers(count, 0, r, c, x, y));
    } else {
        assert forall|d: int, r2: int, c2: int| !#[trigger] cell_covers(count, d, r2, c2, x, y) by {
            if cell_covers(count, d, r2, c2, x, y) {
                assert(d == 0);
                assert(c2 * badge_scale(count) == 3 * c2);
                assert((c2 + 1) * badge_scale(count) == 3 * c2 + 3);
                assert(r2 * badge_scale(count) == 3 * r2);
                assert((r2 + 1) * badge_scale(count) == 3 * r2 + 3);
                assert(c2 == c && r2 == r);
            }
        }
        assert(!text_covers(count, x, y));
        assert(badge_background_rgba()[0] != badge_text_rgba()[0]);
        assert(badge_border_rgba()[0] != badge_text_rgba()[0]);
        assert(seq![0u8, 0u8, 0u8, 0u8][0] != badge_text_rgba()[0]);
    }
}

/// The icons of two different single-digit counts differ in some pixel; the
/// icon for 2 unread messages is not the icon for 5.
pub proof fn law_single_digit_icons_differ(a: int, b: int)
    requires
        1 <= a <= 9,
        1 <= b <= 9,
        a != b,
    ensures
        exists|x: int, y: int| 0 <= x < 32 && 0 <= y < 32 && #[trigger] overlay_pixel(a, x, y) != overlay_pixel(b, x, y),
{
    let da = digit_char(a as nat);
    let db = digit_char(b as nat);
    assert(da != db);
    law_digit_glyphs_differ(da, db);
    let (r, c) = choose|r: int, c: int| 0 <= r < 5 && 0 <= c < 3 && #[trigger] glyph_cell(da, r, c) != glyph_cell(db, r, c);
    law_single_digit_icon_shows_glyph(a, r, c, 0, 0);
    law_single_digit_icon_shows_glyph(b, r, c, 0, 0);
    assert(overlay_pixel(a, 11 + 3 * c, 8 + 3 * r) != overlay_pixel(b, 11 + 3 * c, 8 + 3 * r));
}

// ---------------------------------------------------------------------------
// Taskbar badge
// ---------------------------------------------------------------------------

/// A title count that differs from what the badge shows always replaces it:
/// the remembered value becomes that count and the badge is redrawn with it,
/// whether the count went up or down.
pub proof fn law_new_count_replaces_badge(current: Option<i64>, count: i64)
    requires
        ENABLE_TASKBAR_BADGE,
        current != Some(count),
    ensures
        spec_apply_badge(current, BadgeUpdate::FromTitle(Some(count))) == (
            Some(count),
            BadgeRefresh::Show(Some(count)),
        ),
{
}

/// Clearing a shown badge removes it and redraws the taskbar without one.
pub proof fn law_clear_redraws_shown_badge(count: i64)
    requires
        ENABLE_TASKBAR_BADGE,
    ensures
        spec_apply_badge(Some(count), BadgeUpdate::Clear) == (None::<i64>, BadgeRefresh::Show(None)),
{
}

// ---------------------------------------------------------------------------
// Installing an update
// ---------------------------------------------------------------------------

/// Whenever no installation runs and an update is available, starting an
/// installation hands out that update and marks an installation as running,
/// whether or not the user deferred it.
pub proof fn law_install_hands_out_available_update(s: UpdateStateView)
    requires
        !s.installing,
        s.available is Some,
    ensures
        spec_begin_install(s) == (UpdateStateView { installing: true, ..s }, Ok::<_, Seq<char>>(s.available->0)),
{
}

/// Deferring an update does not change what a later installation start does.
pub proof fn law_defer_does_not_block_install(s: UpdateStateView)
    ensures
        spec_begin_install(spec_defer_update(s).0).1 == spec_begin_install(s).1,
{
}

// ---------------------------------------------------------------------------
// Sign-in pages
// ---------------------------------------------------------------------------

/// The Messenger/Facebook sign-in and account pages.
pub open spec fn is_sign_in_path(p: Seq<char>) -> bool {
    ||| p == "/login"@
    ||| p == "/login.php"@
    ||| p == "/checkpoint"@
    ||| p == "/recover"@
    ||| p == "/two_factor"@
    ||| p == "/confirm"@
    ||| p == "/confirmemail"@
    ||| p == "/security"@
    ||| p == "/auth"@
    ||| p == "/dialog/oauth"@
    ||| p == "/privacy/consent"@
    ||| p == "/cookie/consent"@
    ||| p == "/help/contact"@
}

/// An http(s) Messenger/Facebook URL is a sign-in navigation exactly when its
/// lower-cased path is one of the sign-in paths, or starts with one of them
/// followed by '/'.
pub proof fn law_sign_in_paths(url: WebUrlView, p: Seq<char>, rest: Seq<char>)
    ensures
        spec_open_in_app(url) && is_sign_in_path(p) && (ascii_lower(url.path) == p || ascii_lower(url.path)
            == p.push('/') + rest) ==> spec_auth_navigation(url),
        spec_auth_navigation(url) ==> spec_open_in_app(url) && exists|q: Seq<char>|
            #[trigger] is_sign_in_path(q) && (ascii_lower(url.path) == q || crate::text::has_prefix(
                ascii_lower(url.path),
                q.push('/'),
            )),
{
    let path = ascii_lower(url.path);
    if spec_open_in_app(url) && is_sign_in_path(p) && (path == p || path == p.push('/') + rest) {
        let i: int = if p == "/login"@ {
            0
        } else if p == "/login.php"@ {
            1
        } else if p == "/checkpoint"@ {
            2
        } else if p == "/recover"@ {
            3
        } else if p == "/two_factor"@ {
            4
        } else if p == "/confirm"@ {
            5
        } else if p == "/confirmemail"@ {
            6
        } else if p == "/security"@ {
            7
        } else if p == "/auth"@ {
            8
        } else if p == "/dialog/oauth"@ {
            9
        } else if p == "/privacy/consent"@ {
            10
        } else if p == "/cookie/consent"@ {
            11
        } else {
            12
        };
        assert(auth_path_at(i) == p);
        if path != p {
            assert(path.subrange(0, p.push('/').len() as int) =~= p.push('/'));
        }
        assert(path_is_under(path, auth_path_at(i)));
    }
    if spec_auth_navigation(url) {
        let i = choose|i: int| 0 <= i < 13 && #[trigger] path_is_under(path, auth_path_at(i));
        assert(is_sign_in_path(auth_path_at(i)));
    }
}

// ---------------------------------------------------------------------------
// Image paths accepted for copying
// ---------------------------------------------------------------------------

/// The image file extensions.
pub open spec fn is_image_file_extension(e: Seq<char>) -> bool {
    ||| e == ".avif"@
    ||| e == ".gif"@
    ||| e == ".jpg"@
    ||| e == ".jpeg"@
    ||| e == ".png"@
    ||| e == ".webp"@
}

/// A path counts as an image file exactly when it ends with one of the image
/// file extensions.
pub proof fn law_image_extensions(path: Seq<char>, e: Seq<char>)
    ensures
        is_image_file_extension(e) && has_suffix(path, e) ==> spec_image_extension(path),
        spec_image_extension(path) ==> exists|f: Seq<char>| #[trigger] is_image_file_extension(f) && has_suffix(path, f),
{
    if is_image_file_extension(e) && has_suffix(path, e) {
        let i: int = if e == ".avif"@ {
            0
        } else if e == ".gif"@ {
            1
        } else if e == ".jpg"@ {
            2
        } else if e == ".jpeg"@ {
            3
        } else if e == ".png"@ {
            4
        } else {
            5
        };
        assert(image_extension_at(i) == e);
        assert(has_suffix(path, image_extension_at(i)));
    }
    if spec_image_extension(path) {
        let i = choose|i: int| 0 <= i < 6 && #[trigger] has_suffix(path, image_extension_at(i));
        assert(is_image_file_extension(image_extension_at(i)));
    }
}

/// The path segments under which Messenger serves media.
pub open spec fn is_media_route(m: Seq<char>) -> bool {
    ||| m == "/photo"@
    ||| m == "/photos"@
    ||| m == "/media"@
    ||| m == "/image"@
    ||| m == "/attachment"@
    ||| m == "/attachments"@
}

/// A path contains a media route exactly when one of the media segments
/// occurs in it followed by '/' or by ".php".
pub proof fn law_media_routes(path: Seq<char>, m: Seq<char>)
    ensures
        is_media_route(m) && (has_infix(path, m.push('/')) || has_infix(path, m + ".php"@)) ==> spec_media_route(
            path,
        ),
        spec_media_route(path) ==> exists|n: Seq<char>|
            #[trigger] is_media_route(n) && (has_infix(path, n.push('/')) || has_infix(path, n + ".php"@)),
{
    if is_media_route(m) && (has_infix(path, m.push('/')) || has_infix(path, m + ".php"@)) {
        let i: int = if m == "/photo"@ {
            0
        } else if m == "/photos"@ {
            1
        } else if m == "/media"@ {
            2
        } else if m == "/image"@ {
            3
        } else if m == "/attachment"@ {
            4
        } else {
            5
        };
        assert(media_route_at(i) == m);
        assert(has_infix(path, media_route_at(i).push('/')) || has_infix(path, media_route_at(i) + ".php"@));
    }
    if spec_media_route(path) {
        let i = choose|i: int|
            0 <= i < 6 && (#[trigger] has_infix(path, media_route_at(i).push('/')) || has_infix(
                path,
                media_route_at(i) + ".php"@,
            ));
        assert(is_media_route(media_route_at(i)));
    }
}

// ---------------------------------------------------------------------------
// Colours of the overlay icon
// ---------------------------------------------------------------------------

/// Every pixel of the overlay icon is light text (236, 238, 245), the dark
/// disc (41, 43, 51, slightly transparent) or fully transparent; pixels
/// farther than 16 from the centre (16, 16) are transparent unless they are
/// text, and pixels within 15 of it are disc unless they are text.
pub proof fn law_overlay_icon_colours(count: int, x: int, y: int)
    ensures
        overlay_pixel(count, x, y) == seq![236u8, 238u8, 245u8, 255u8] || overlay_pixel(count, x, y) == seq![
            41u8,
            43u8,
            51u8,
            245u8,
        ] || overlay_pixel(count, x, y) == seq![0u8, 0u8, 0u8, 0u8],
        (overlay_pixel(count, x, y) == seq![236u8, 238u8, 245u8, 255u8]) == text_covers(count, x, y),
        !text_covers(count, x, y) && (2 * x - 31) * (2 * x - 31) + (2 * y - 31) * (2 * y - 31) > 4 * 16 * 16
            ==> overlay_pixel(count, x, y) == seq![0u8, 0u8, 0u8, 0u8],
        !text_covers(count, x, y) && (2 * x - 31) * (2 * x - 31) + (2 * y - 31) * (2 * y - 31) <= 4 * 15 * 15
            ==> overlay_pixel(count, x, y) == seq![41u8, 43u8, 51u8, 245u8],
{
    assert(seq![41u8, 43u8, 51u8, 245u8] != seq![236u8, 238u8, 245u8, 255u8]) by {
        assert(seq![41u8, 43u8, 51u8, 245u8][0] != seq![236u8, 238u8, 245u8, 255u8][0]);
    }
    assert(seq![0u8, 0u8, 0u8, 0u8] != seq![236u8, 238u8, 245u8, 255u8]) by {
        assert(seq![0u8, 0u8, 0u8, 0u8][0] != seq![236u8, 238u8, 245u8, 255u8][0]);
    }
}

} // verus!
