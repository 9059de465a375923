//! Which URLs stay inside the app, which go to the system browser, and how a
//! link that the page marked as external is turned back into its target.

use vstd::prelude::*;

use crate::text::{
    ascii_lower, chars_eq, chars_of, ends_with, has_prefix, has_suffix, starts_with,
    to_ascii_lowercase,
};
use crate::web_url::{
    form_pairs, form_serialized, opt_view, pairs_view, query_pairs, serialize_query, WebUrl,
    WebUrlView,
};

verus! {

/// The query parameter with which the page marks a link to open outside.
pub const EXTERNAL_NAVIGATION_PARAM: &'static str = "__tauri_external";

// ---------------------------------------------------------------------------
// Specifications
// ---------------------------------------------------------------------------

/// A (lower-case) host name that belongs to Messenger or Facebook.
pub open spec fn is_messenger_or_facebook_host_name(host: Seq<char>) -> bool {
    ||| host == "messenger.com"@
    ||| has_suffix(host, ".messenger.com"@)
    ||| host == "facebook.com"@
    ||| has_suffix(host, ".facebook.com"@)
}

/// The URL's host, lower-cased, belongs to Messenger or Facebook.
pub open spec fn spec_messenger_or_facebook_url(url: WebUrlView) -> bool {
    match url.host {
        Some(h) => is_messenger_or_facebook_host_name(ascii_lower(h)),
        None => false,
    }
}

/// An http(s) URL on a Messenger or Facebook host.
pub open spec fn spec_open_in_app(url: WebUrlView) -> bool {
    (url.scheme == "http"@ || url.scheme == "https"@) && spec_messenger_or_facebook_url(url)
}

/// An `about:` or `blob:` URL, which the webview handles itself.
pub open spec fn spec_keep_in_webview(url: WebUrlView) -> bool {
    url.scheme == "about"@ || url.scheme == "blob"@
}

/// The sign-in and account-recovery paths that must load in the main window.
pub open spec fn auth_path_at(i: int) -> Seq<char> {
    if i == 0 {
        "/login"@
    } else if i == 1 {
        "/login.php"@
    } else if i == 2 {
        "/checkpoint"@
    } else if i == 3 {
        "/recover"@
    } else if i == 4 {
        "/two_factor"@
    } else if i == 5 {
        "/confirm"@
    } else if i == 6 {
        "/confirmemail"@
    } else if i == 7 {
        "/security"@
    } else if i == 8 {
        "/auth"@
    } else if i == 9 {
        "/dialog/oauth"@
    } else if i == 10 {
        "/privacy/consent"@
    } else if i == 11 {
        "/cookie/consent"@
    } else {
        "/help/contact"@
    }
}

/// Number of sign-in paths.
pub open spec fn auth_path_count() -> int {
    13
}

/// `path` is the sign-in path `p` or lies below it.
pub open spec fn path_is_under(path: Seq<char>, p: Seq<char>) -> bool {
    path == p || has_prefix(path, p.push('/'))
}

/// A Messenger/Facebook URL whose lower-cased path is a sign-in path.
pub open spec fn spec_auth_navigation(url: WebUrlView) -> bool {
    &&& spec_open_in_app(url)
    &&& exists|i: int| 0 <= i < auth_path_count() && #[trigger] path_is_under(ascii_lower(url.path), auth_path_at(i))
}

/// The pairs of `pairs` whose name is not `name`, in order.
pub open spec fn pairs_without(pairs: Seq<(Seq<char>, Seq<char>)>, name: Seq<char>) -> Seq<(Seq<char>, Seq<char>)>
    decreases pairs.len(),
{
    if pairs.len() == 0 {
        pairs
    } else {
        let rest = pairs_without(pairs.drop_last(), name);
        if pairs.last().0 == name {
            rest
        } else {
            rest.push(pairs.last())
        }
    }
}

/// The decoded query pairs of a URL (none when it has no query).
pub open spec fn url_query_pairs(url: WebUrlView) -> Seq<(Seq<char>, Seq<char>)> {
    match url.query {
        Some(q) => form_pairs(q),
        None => form_pairs(""@),
    }
}

/// The query carries the marker pair `__tauri_external=1`.
pub open spec fn spec_has_external_marker(url: WebUrlView) -> bool {
    exists|i: int|
        0 <= i < url_query_pairs(url).len() && #[trigger] url_query_pairs(url)[i] == (
            EXTERNAL_NAVIGATION_PARAM@,
            "1"@,
        )
}

/// For a marked URL, the same URL with every marker parameter removed from
/// its query (and no query at all when nothing else is left).
pub open spec fn spec_external_target(url: WebUrlView) -> Option<WebUrlView> {
    if spec_has_external_marker(url) {
        let rest = pairs_without(url_query_pairs(url), EXTERNAL_NAVIGATION_PARAM@);
        let query = if rest.len() == 0 {
            None
        } else {
            Some(form_serialized(rest))
        };
        Some(WebUrlView { query, ..url })
    } else {
        None
    }
}

/// The URL that opening `url` in the system browser hands over, if any.
pub open spec fn spec_browser_target(url: WebUrlView) -> Option<WebUrlView> {
    if spec_keep_in_webview(url) {
        None
    } else {
        Some(url)
    }
}

// ---------------------------------------------------------------------------
// Host, scheme and path checks
// ---------------------------------------------------------------------------

/// Whether the (lower-case) host name belongs to Messenger or Facebook.
pub fn messenger_or_facebook_host_chars(host: &Vec<char>) -> (res: bool)
    ensures
        res == is_messenger_or_facebook_host_name(host@),
{
    chars_eq(host, &chars_of("messenger.com")) || ends_with(host, &chars_of(".messenger.com"))
        || chars_eq(host, &chars_of("facebook.com")) || ends_with(host, &chars_of(".facebook.com"))
}

/// Whether the URL's host, lower-cased, belongs to Messenger or Facebook.
pub fn is_messenger_or_facebook_host(url: &WebUrl) -> (res: bool)
    ensures
        res == spec_messenger_or_facebook_url(url@),
{
    match &url.host {
        Some(h) => {
            let lower = to_ascii_lowercase(&chars_of(h.as_str()));
            messenger_or_facebook_host_chars(&lower)
        },
        None => false,
    }
}

/// Whether `s` equals the text `lit`.
fn text_is(s: &String, lit: &str) -> (res: bool)
    ensures
        res == (s@ == lit@),
{
    chars_eq(&chars_of(s.as_str()), &chars_of(lit))
}

/// Whether the URL should load inside the app: http(s) on a Messenger or
/// Facebook host.
pub fn should_open_in_app(url: &WebUrl) -> (res: bool)
    ensures
        res == spec_open_in_app(url@),
{
    if !text_is(&url.scheme, "http") && !text_is(&url.scheme, "https") {
        return false;
    }
    is_messenger_or_facebook_host(url)
}

/// Whether the URL is one the webview keeps to itself (`about:`, `blob:`).
pub fn should_keep_in_webview(url: &WebUrl) -> (res: bool)
    ensures
        res == spec_keep_in_webview(url@),
{
    text_is(&url.scheme, "about") || text_is(&url.scheme, "blob")
}

/// The `i`-th sign-in path.
fn auth_path(i: usize) -> (res: &'static str)
    requires
        i < 13,
    ensures
        res@ == auth_path_at(i as int),
{
    if i == 0 {
        "/login"
    } else if i == 1 {
        "/login.php"
    } else if i == 2 {
        "/checkpoint"
    } else if i == 3 {
        "/recover"
    } else if i == 4 {
        "/two_factor"
    } else if i == 5 {
        "/confirm"
    } else if i == 6 {
        "/confirmemail"
    } else if i == 7 {
        "/security"
    } else if i == 8 {
        "/auth"
    } else if i == 9 {
        "/dialog/oauth"
    } else if i == 10 {
        "/privacy/consent"
    } else if i == 11 {
        "/cookie/consent"
    } else {
        "/help/contact"
    }
}

/// Whether the URL is a Messenger/Facebook sign-in page (login, checkpoint,
/// recovery, two-factor, consent ...), which must load in the main window.
pub fn is_auth_navigation(url: &WebUrl) -> (res: bool)
    ensures
        res == spec_auth_navigation(url@),
{
    if !should_open_in_app(url) {
        return false;
    }
    let path = to_ascii_lowercase(&chars_of(url.path.as_str()));
    let mut i: usize = 0;
    while i < 13
        invariant
            i <= 13,
            spec_open_in_app(url@),
            path@ == ascii_lower(url@.path),
            forall|k: int| 0 <= k < i ==> !#[trigger] path_is_under(path@, auth_path_at(k)),
        decreases 13 - i,
    {
        let p = chars_of(auth_path(i));
        let mut below = chars_of(auth_path(i));
        below.push('/');
        if chars_eq(&path, &p) || starts_with(&path, &below) {
            assert(path_is_under(path@, auth_path_at(i as int)));
            return true;
        }
        i = i + 1;
    }
    false
}

// ---------------------------------------------------------------------------
// Marked external links
// ---------------------------------------------------------------------------

/// The pairs whose name is not `name`.
fn remove_pairs_named(pairs: &Vec<(String, String)>, name: &Vec<char>) -> (res: Vec<(String, String)>)
    ensures
        pairs_view(res@) == pairs_without(pairs_view(pairs@), name@),
{
    let mut res: Vec<(String, String)> = Vec::new();
    let mut i: usize = 0;
    while i < pairs.len()
        invariant
            i <= pairs.len(),
            pairs_view(res@) == pairs_without(pairs_view(pairs@.take(i as int)), name@),
        decreases pairs.len() - i,
    {
        let key = chars_of(pairs[i].0.as_str());
        proof {
            assert(pairs_view(pairs@.take(i + 1)).drop_last() =~= pairs_view(pairs@.take(i as int)));
            assert(pairs_view(pairs@.take(i + 1)).last() == (pairs@[i as int].0@, pairs@[i as int].1@));
        }
        if !chars_eq(&key, name) {
            let ghost before = res@;
            res.push((pairs[i].0.clone(), pairs[i].1.clone()));
            assert(pairs_view(res@) =~= pairs_view(before).push((pairs@[i as int].0@, pairs@[i as int].1@)));
        }
        i = i + 1;
    }
    assert(pairs@.take(pairs.len() as int) =~= pairs@);
    res
}

/// For a link that the page marked with `__tauri_external=1`, the URL to open
/// in the system browser: the same URL without the marker parameter.
/// Unmarked URLs give `None`.
pub fn external_url_from_marked_navigation(url: &WebUrl) -> (res: Option<WebUrl>)
    ensures
        match res {
            Some(u) => spec_external_target(url@) == Some(u@),
            None => spec_external_target(url@) is None,
        },
{
    let pairs = match &url.query {
        Some(q) => query_pairs(q.as_str()),
        None => query_pairs(""),
    };
    let marker = chars_of(EXTERNAL_NAVIGATION_PARAM);
    let one = chars_of("1");
    let mut has_marker = false;
    let mut i: usize = 0;
    while i < pairs.len()
        invariant
            i <= pairs.len(),
            pairs_view(pairs@) == url_query_pairs(url@),
            marker@ == EXTERNAL_NAVIGATION_PARAM@,
            one@ == "1"@,
            has_marker == exists|k: int|
                0 <= k < i && #[trigger] url_query_pairs(url@)[k] == (EXTERNAL_NAVIGATION_PARAM@, "1"@),
        decreases pairs.len() - i,
    {
        let matches = chars_eq(&chars_of(pairs[i].0.as_str()), &marker) && chars_eq(
            &chars_of(pairs[i].1.as_str()),
            &one,
        );
        proof {
            assert(url_query_pairs(url@)[i as int] == (pairs@[i as int].0@, pairs@[i as int].1@));
        }
        if matches {
            has_marker = true;
        }
        i = i + 1;
    }
    if !has_marker {
        return None;
    }
    let rest = remove_pairs_named(&pairs, &marker);
    let query = if rest.len() == 0 {
        None
    } else {
        Some(serialize_query(&rest))
    };
    Some(url.with_query(query))
}

// ---------------------------------------------------------------------------
// Decisions for the webview's navigation hooks
// ---------------------------------------------------------------------------

/// The URL to hand to the system browser, unless the webview keeps it.
pub fn open_in_system_browser(url: &WebUrl) -> (res: Option<WebUrl>)
    ensures
        match res {
            Some(u) => spec_browser_target(url@) == Some(u@),
            None => spec_browser_target(url@) is None,
        },
{
    if should_keep_in_webview(url) {
        None
    } else {
        Some(url.copy())
    }
}

/// The answer to a navigation request in a Messenger window.
pub struct NavigationOutcome {
    /// Let the webview load the URL.
    pub allow: bool,
    /// Open this URL in the system browser.
    pub open_in_browser: Option<WebUrl>,
}

/// The model of a [`NavigationOutcome`].
pub open spec fn spec_navigation_outcome(url: WebUrlView) -> (bool, Option<WebUrlView>) {
    match spec_external_target(url) {
        Some(target) => (false, spec_browser_target(target)),
        None => if spec_open_in_app(url) || spec_keep_in_webview(url) {
            (true, None)
        } else {
            (false, spec_browser_target(url))
        },
    }
}

/// Marked links go to the browser, Messenger/Facebook and `about:`/`blob:`
/// URLs load in place, everything else goes to the browser.
pub fn handle_navigation_request(url: &WebUrl) -> (res: NavigationOutcome)
    ensures
        spec_navigation_outcome(url@) == (res.allow, opt_url_view(res.open_in_browser)),
{
    if let Some(external_url) = external_url_from_marked_navigation(url) {
        return NavigationOutcome { allow: false, open_in_browser: open_in_system_browser(&external_url) };
    }
    if should_open_in_app(url) || should_keep_in_webview(url) {
        return NavigationOutcome { allow: true, open_in_browser: None };
    }
    NavigationOutcome { allow: false, open_in_browser: open_in_system_browser(url) }
}

/// The view of an optional URL.
pub open spec fn opt_url_view(u: Option<WebUrl>) -> Option<WebUrlView> {
    match u {
        Some(v) => Some(v@),
        None => None,
    }
}

/// The answer to a request to open a new window.
pub enum NewWindowAction {
    /// Refuse the window; open this URL in the system browser, if any.
    Deny(Option<WebUrl>),
    /// Refuse the window and load the URL in the main window instead.
    NavigateMainWindow,
    /// Open the URL in a new Messenger popup window.
    CreatePopup,
}

/// The model of a [`NewWindowAction`].
pub enum NewWindowActionView {
    Deny(Option<WebUrlView>),
    NavigateMainWindow,
    CreatePopup,
}

/// The view of a [`NewWindowAction`].
pub open spec fn new_window_action_view(a: NewWindowAction) -> NewWindowActionView {
    match a {
        NewWindowAction::Deny(u) => NewWindowActionView::Deny(opt_url_view(u)),
        NewWindowAction::NavigateMainWindow => NewWindowActionView::NavigateMainWindow,
        NewWindowAction::CreatePopup => NewWindowActionView::CreatePopup,
    }
}

/// What happens to a request to open `url` in a new window.
pub open spec fn spec_new_window_action(url: WebUrlView) -> NewWindowActionView {
    match spec_external_target(url) {
        Some(target) => NewWindowActionView::Deny(spec_browser_target(target)),
        None => if spec_auth_navigation(url) {
            NewWindowActionView::NavigateMainWindow
        } else if spec_open_in_app(url) || spec_keep_in_webview(url) {
            NewWindowActionView::CreatePopup
        } else {
            NewWindowActionView::Deny(spec_browser_target(url))
        },
    }
}

/// Marked links go to the browser, sign-in pages replace the main window's
/// page, other Messenger/Facebook and `about:`/`blob:` URLs get a popup,
/// everything else goes to the browser.
pub fn handle_new_window_request(url: &WebUrl) -> (res: NewWindowAction)
    ensures
        new_window_action_view(res) == spec_new_window_action(url@),
{
    if let Some(external_url) = external_url_from_marked_navigation(url) {
        return NewWindowAction::Deny(open_in_system_browser(&external_url));
    }
    if is_auth_navigation(url) {
        return NewWindowAction::NavigateMainWindow;
    }
    if should_open_in_app(url) || should_keep_in_webview(url) {
        return NewWindowAction::CreatePopup;
    }
    NewWindowAction::Deny(open_in_system_browser(url))
}

// ---------------------------------------------------------------------------
// Laws
// ---------------------------------------------------------------------------

/// A link marked for outside opening never loads in the app, neither in
/// place nor in a new window.
pub proof fn law_marked_links_leave_the_app(url: WebUrlView)
    requires
        spec_has_external_marker(url),
    ensures
        !spec_navigation_outcome(url).0,
        spec_new_window_action(url) is Deny,
{
}

/// Removing the marker parameter leaves no pair with that name.
pub proof fn law_marker_is_removed(pairs: Seq<(Seq<char>, Seq<char>)>, name: Seq<char>)
    ensures
        forall|i: int|
            0 <= i < pairs_without(pairs, name).len() ==> #[trigger] pairs_without(pairs, name)[i].0 != name,
    decreases pairs.len(),
{
    if pairs.len() > 0 {
        law_marker_is_removed(pairs.drop_last(), name);
        let rest = pairs_without(pairs.drop_last(), name);
        assert forall|i: int| 0 <= i < pairs_without(pairs, name).len() implies #[trigger] pairs_without(
            pairs,
            name,
        )[i].0 != name by {
            if i < rest.len() {
                assert(pairs_without(pairs, name)[i] == rest[i]);
            }
        }
    }
}

/// `about:` and `blob:` URLs are never handed to the system browser.
pub proof fn law_webview_urls_stay_in_webview(url: WebUrlView)
    ensures
        spec_keep_in_webview(url) ==> spec_browser_target(url) is None,
        spec_navigation_outcome(url).1 matches Some(t) ==> !spec_keep_in_webview(t),
        spec_new_window_action(url) matches NewWindowActionView::Deny(Some(t)) ==> !spec_keep_in_webview(t),
{
}

/// Unmarked Messenger/Facebook pages load in place; anything else that is
/// not kept by the webview goes to the browser unchanged.
pub proof fn law_unmarked_navigation(url: WebUrlView)
    requires
        !spec_has_external_marker(url),
    ensures
        spec_open_in_app(url) ==> spec_navigation_outcome(url) == (true, None::<WebUrlView>),
        !spec_open_in_app(url) && !spec_keep_in_webview(url) ==> spec_navigation_outcome(url) == (
            false,
            Some(url),
        ),
{
}

/// Sign-in pages are Messenger/Facebook pages, and a request to open one in
/// a new window loads it in the main window instead.
pub proof fn law_auth_pages_use_main_window(url: WebUrlView)
    requires
        spec_auth_navigation(url),
        !spec_has_external_marker(url),
    ensures
        spec_open_in_app(url),
        spec_new_window_action(url) == NewWindowActionView::NavigateMainWindow,
{
}

} // verus!
