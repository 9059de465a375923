//! Window titles and labels.

use vstd::prelude::*;

use crate::badge::{title_unread_count, unread_count_from_title};
use crate::text::{chars_of, decimal, decimal_of, join_text, string_of, trim, trim_whitespace};

verus! {

/// Label of the main window.
pub const MAIN_WINDOW_LABEL: &'static str = "main";

/// The text shown in a window's title bar for a page title: the title after
/// one space.
pub fn title_bar_text(title: &str) -> (res: String)
    ensures
        res@ == " "@ + title@,
{
    join_text(" ", title)
}

/// The title-bar text for a page title: trimmed, "Messenger" when empty.
pub open spec fn spec_window_title(page_title: Seq<char>) -> Seq<char> {
    let t = trim(page_title);
    " "@ + (if t.len() == 0 {
        "Messenger"@
    } else {
        t
    })
}

/// The title-bar text for the page title `page_title`.
pub fn window_title_for_page(page_title: &str) -> (res: String)
    ensures
        res@ == spec_window_title(page_title@),
{
    let trimmed = string_of(&trim_whitespace(&chars_of(page_title)));
    if trimmed.as_str().is_empty() {
        title_bar_text("Messenger")
    } else {
        title_bar_text(trimmed.as_str())
    }
}

/// What a new page title in the main window changes.
pub struct MainTitleUpdate {
    /// The unread count to put on the badge, if the title shows one.
    pub unread_count: Option<i64>,
    /// The title-bar text.
    pub window_title: String,
}

/// The changes for a new page title in the main window: the unread count of
/// the trimmed title, and the title-bar text.
pub fn main_window_title_update(page_title: &str) -> (res: MainTitleUpdate)
    ensures
        res.window_title@ == spec_window_title(page_title@),
        match res.unread_count {
            Some(c) => title_unread_count(trim(page_title@)) == Some(c as int),
            None => title_unread_count(trim(page_title@)) is None,
        },
{
    let trimmed = string_of(&trim_whitespace(&chars_of(page_title)));
    MainTitleUpdate {
        unread_count: unread_count_from_title(trimmed.as_str()),
        window_title: window_title_for_page(page_title),
    }
}

/// Numbers the popup windows.
pub struct PopupCounter {
    /// Number of the next popup.
    pub next: usize,
}

impl PopupCounter {
    /// The first popup is number 1.
    pub fn new() -> (res: PopupCounter)
        ensures
            res.next == 1,
    {
        PopupCounter { next: 1 }
    }

    /// The label of the next popup window, "messenger-popup-<n>"; the number
    /// wraps around like an atomic counter.
    pub fn next_label(&mut self) -> (label: String)
        ensures
            label@ == "messenger-popup-"@ + decimal(old(self).next as nat),
            final(self).next == (if old(self).next == usize::MAX {
                0
            } else {
                old(self).next + 1
            }),
    {
        let n: usize = self.next;
        self.next = n.wrapping_add(1);
        let digits = string_of(&decimal_of(n as u64));
        join_text("messenger-popup-", digits.as_str())
    }
}

} // verus!
