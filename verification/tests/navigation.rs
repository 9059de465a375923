use unofficial_messenger_next::navigation::{
    external_url_from_marked_navigation, handle_navigation_request, handle_new_window_request,
    is_auth_navigation, is_messenger_or_facebook_host, open_in_system_browser,
    should_keep_in_webview, should_open_in_app, NewWindowAction,
};
use unofficial_messenger_next::web_url::WebUrl;

fn url(scheme: &str, host: Option<&str>, path: &str, query: Option<&str>) -> WebUrl {
    WebUrl {
        scheme: scheme.to_string(),
        host: host.map(str::to_string),
        path: path.to_string(),
        query: query.map(str::to_string),
    }
}

#[test]
fn messenger_hosts() {
    assert!(is_messenger_or_facebook_host(&url("https", Some("www.Messenger.com"), "/", None)));
    assert!(is_messenger_or_facebook_host(&url("https", Some("facebook.com"), "/", None)));
    assert!(!is_messenger_or_facebook_host(&url("https", Some("notfacebook.com"), "/", None)));
    assert!(!is_messenger_or_facebook_host(&url("https", None, "/", None)));
}

#[test]
fn open_in_app_needs_http() {
    assert!(should_open_in_app(&url("https", Some("www.messenger.com"), "/t/1", None)));
    assert!(should_open_in_app(&url("http", Some("m.facebook.com"), "/", None)));
    assert!(!should_open_in_app(&url("ftp", Some("www.messenger.com"), "/", None)));
    assert!(!should_open_in_app(&url("https", Some("example.com"), "/", None)));
}

#[test]
fn webview_keeps_about_and_blob() {
    assert!(should_keep_in_webview(&url("about", None, "blank", None)));
    assert!(should_keep_in_webview(&url("blob", None, "x", None)));
    assert!(!should_keep_in_webview(&url("https", Some("a.com"), "/", None)));
    assert!(open_in_system_browser(&url("about", None, "blank", None)).is_none());
}

#[test]
fn auth_paths() {
    let on = |p: &str| is_auth_navigation(&url("https", Some("www.facebook.com"), p, None));
    assert!(on("/login"));
    assert!(on("/LOGIN.php"));
    assert!(on("/checkpoint/block"));
    assert!(on("/dialog/oauth"));
    assert!(!on("/loginx"));
    assert!(!on("/t/123"));
    assert!(!is_auth_navigation(&url("https", Some("example.com"), "/login", None)));
}

#[test]
fn marked_link_loses_marker() {
    let marked = url("https", Some("l.facebook.com"), "/l.php", Some("u=https%3A%2F%2Fexample.com%2Fa+b&__tauri_external=1"));
    let target = external_url_from_marked_navigation(&marked).expect("marked");
    assert_eq!(target.query.as_deref(), Some("u=https%3A%2F%2Fexample.com%2Fa+b"));
    assert_eq!(target.host.as_deref(), Some("l.facebook.com"));
    assert_eq!(target.path, "/l.php");
}

#[test]
fn marked_link_reencodes_query() {
    let marked = url("https", Some("example.com"), "/", Some("q=a%20b&__tauri_external=1&__tauri_external=2"));
    let target = external_url_from_marked_navigation(&marked).expect("marked");
    assert_eq!(target.query.as_deref(), Some("q=a+b"));
}

#[test]
fn marked_link_without_other_parameters() {
    let marked = url("https", Some("example.com"), "/page", Some("__tauri_external=1"));
    let target = external_url_from_marked_navigation(&marked).expect("marked");
    assert_eq!(target.query, None);
}

#[test]
fn unmarked_links() {
    assert!(external_url_from_marked_navigation(&url("https", Some("example.com"), "/", Some("__tauri_external=0"))).is_none());
    assert!(external_url_from_marked_navigation(&url("https", Some("example.com"), "/", None)).is_none());
}

#[test]
fn navigation_decisions() {
    let inside = handle_navigation_request(&url("https", Some("www.messenger.com"), "/t/1", None));
    assert!(inside.allow && inside.open_in_browser.is_none());

    let blob = handle_navigation_request(&url("blob", None, "x", None));
    assert!(blob.allow && blob.open_in_browser.is_none());

    let outside = handle_navigation_request(&url("https", Some("example.com"), "/a", Some("x=1")));
    assert!(!outside.allow);
    assert_eq!(outside.open_in_browser.expect("browser").query.as_deref(), Some("x=1"));

    let marked = handle_navigation_request(&url("https", Some("www.messenger.com"), "/", Some("__tauri_external=1")));
    assert!(!marked.allow);
    assert_eq!(marked.open_in_browser.expect("browser").query, None);
}

#[test]
fn new_window_decisions() {
    assert!(matches!(
        handle_new_window_request(&url("https", Some("www.facebook.com"), "/login/", None)),
        NewWindowAction::NavigateMainWindow
    ));
    assert!(matches!(
        handle_new_window_request(&url("https", Some("www.messenger.com"), "/call", None)),
        NewWindowAction::CreatePopup
    ));
    assert!(matches!(
        handle_new_window_request(&url("about", None, "blank", None)),
        NewWindowAction::CreatePopup
    ));
    match handle_new_window_request(&url("https", Some("example.com"), "/", None)) {
        NewWindowAction::Deny(Some(target)) => assert_eq!(target.host.as_deref(), Some("example.com")),
        _ => panic!("expected the browser"),
    }
    match handle_new_window_request(&url("https", Some("www.facebook.com"), "/login", Some("__tauri_external=1"))) {
        NewWindowAction::Deny(Some(target)) => assert_eq!(target.path, "/login"),
        _ => panic!("expected the browser"),
    }
}
