use rss_forge::docs::routes::{register, RouteDoc};
use rss_forge::utils::response::{ErrorResponse, RssResponse};

#[test]
fn register_appends_in_order() {
    let mut routes: Vec<RouteDoc> = Vec::new();
    register(&mut routes, "root", "/", "首页");
    register(&mut routes, "github", "/github/trending", "GitHub 趋势");
    assert_eq!(routes.len(), 2);
    assert_eq!(routes[0].group, "root");
    assert_eq!(routes[0].path, "/");
    assert_eq!(routes[1].path, "/github/trending");
    assert_eq!(routes[1].description, "GitHub 趋势");
}

#[test]
fn rss_reply_is_ok_with_rss_type() {
    let r = RssResponse("<rss/>".to_string()).into_response();
    assert_eq!(r.status, 200);
    assert_eq!(r.content_type.as_deref(), Some("application/rss+xml; charset=utf-8"));
    assert_eq!(r.body, "<rss/>");
}

#[test]
fn error_reply_is_server_error() {
    let r = ErrorResponse("Error: boom".to_string()).into_response();
    assert_eq!(r.status, 500);
    assert!(r.content_type.is_none());
    assert_eq!(r.body, "Error: boom");
}

#[test]
fn registrations_append_in_call_order_without_merging() {
    let mut routes: Vec<RouteDoc> = Vec::new();
    register(&mut routes, "a", "/a", "A");
    register(&mut routes, "b", "/b", "B");
    register(&mut routes, "a", "/a", "A");
    let paths: Vec<&str> = routes.iter().map(|r| r.path).collect();
    assert_eq!(paths, vec!["/a", "/b", "/a"]);
}
