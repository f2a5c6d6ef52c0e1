use wpp_desktop::navigation::{is_external, route, Route, Url};

fn url(text: &str) -> Url<String> {
    Url::parse(text).unwrap()
}

#[test]
fn external_vs_internal() {
    let ext = |s: &str| is_external(&url(s), true);
    // external → default browser
    assert!(ext("https://app.wordpuppi.com/preview"));
    assert!(ext("http://example.com"));
    assert!(ext("https://bsky.app/profile/x"));
    assert!(ext("mailto:hi@wordpuppi.com"));
    // internal → stay in webview
    assert!(!ext("tauri://localhost/index.html#env=qa")); // macOS/Linux origin
    assert!(!ext("http://tauri.localhost/index.html")); // Windows origin
    assert!(!ext("http://localhost:1430/shell.html")); // tauri dev server (debug builds)
    assert!(!ext("about:blank"));
    assert!(!ext("blob:tauri://localhost/abc"));
}

#[test]
fn packaged_builds_send_every_other_host_out() {
    let ext = |s: &str| is_external(&url(s), false);
    assert!(ext("http://localhost:1430/shell.html"));
    assert!(ext("https://127.0.0.1/"));
    assert!(ext("tel:+4912345"));
    assert!(ext("HTTPS://Example.COM"));
    assert!(!ext("https://tauri.localhost/"));
    assert!(!ext("http://TAURI.localhost:80/x"));
    assert!(!ext("javascript:alert(1)"));
    assert!(!ext("data:text/plain,x"));
    assert!(!ext("file:///etc/hosts"));
}

#[test]
fn debug_builds_keep_the_local_server() {
    assert!(!is_external(&url("https://127.0.0.1:9/"), true));
    assert!(!is_external(&url("http://localhost/"), true));
    assert!(is_external(&url("http://127.0.0.2/"), true));
    assert!(is_external(&url("http://localhost.example.com/"), true));
}

#[test]
fn parsing_normalizes() {
    let u = url("HTTP://Example.COM");
    assert_eq!(u.text, "http://example.com/");
    assert_eq!(u.scheme, "http");
    assert_eq!(u.host, Some("example.com".to_string()));
    let m = url("mailto:hi@wordpuppi.com");
    assert_eq!(m.scheme, "mailto");
    assert_eq!(m.host, None);
    assert!(Url::parse("no scheme here").is_none());
    assert!(Url::parse("https://").is_none());
}

#[test]
fn one_destination() {
    assert_eq!(
        route(&url("http://Example.com"), false),
        Route { open: Some("http://example.com/".to_string()), allow: false }
    );
    assert_eq!(
        route(&url("tauri://localhost/shell.html"), false),
        Route { open: None, allow: true }
    );
}

#[test]
fn other_schemes_stay_whatever_they_hold() {
    for text in ["blob:https://example.com/1", "about:mailto:x", "wordpuppi://auth/social#x"] {
        assert!(!is_external(&url(text), false), "{}", text);
        assert!(route(&url(text), false).allow);
    }
}

#[test]
fn links_keep_the_scheme_they_are_written_with() {
    for (text, scheme) in [
        ("javascript:void(0)", "javascript"),
        ("tauri://localhost/", "tauri"),
        ("view-source+x.1:abc", "view-source+x.1"),
        ("file:/tmp/x", "file"),
    ] {
        let u = url(text);
        assert_eq!(u.scheme, scheme);
        assert!(u.text.starts_with(&format!("{}:", scheme)));
        assert!(!is_external(&u, false));
    }
}

#[test]
fn own_pages_stay_in_every_build() {
    for text in ["tauri://localhost/index.html", "http://tauri.localhost/", "https://tauri.localhost/x"] {
        assert!(!is_external(&url(text), false));
        assert!(!is_external(&url(text), true));
    }
}
