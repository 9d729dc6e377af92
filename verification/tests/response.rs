use rust_server::response::{response_head, u64_dec};
use rust_server::{base_dir, error_page_file, Request, RequestError};
use rust_server::route::is_within_base;

fn segs(parts: &[&str]) -> Vec<String> {
    parts.iter().map(|p| String::from(*p)).collect()
}

#[test]
fn decimal_rendering_is_exact() {
    assert_eq!(u64_dec(0).as_str(), "0");
    assert_eq!(u64_dec(7).as_str(), "7");
    assert_eq!(u64_dec(12).as_str(), "12");
    assert_eq!(u64_dec(404).as_str(), "404");
    assert_eq!(u64_dec(1000).as_str(), "1000");
    assert_eq!(u64_dec(u64::MAX).as_str(), "18446744073709551615");
}

#[test]
fn success_head_is_framed_exactly() {
    assert_eq!(
        response_head(true, 12).as_str(),
        "HTTP/1.1 200 Ok\r\nContent-Length: 12\r\nContent-Type: text/html; charset=utf-8\r\n\r\n"
    );
}

#[test]
fn not_found_head_is_framed_exactly() {
    assert_eq!(
        response_head(false, 150).as_str(),
        "HTTP/1.1 404 NOT FOUND\r\nContent-Length: 150\r\nContent-Type: text/html; charset=utf-8\r\n\r\n"
    );
}

#[test]
fn configured_names_are_fixed() {
    assert_eq!(base_dir(), "pages");
    assert_eq!(error_page_file(), "error404.html");
}

/// A `GET / HTTP/1.1` request against a base directory whose `index.html`
/// holds 12 bytes: the whole pipeline yields the 200 head with the exact
/// byte length.
#[test]
fn scenario_root_request_succeeds() {
    let req = Request::new(Some("GET / HTTP/1.1")).unwrap();
    let route = Request::normalize_path_string(req.url().as_str()).unwrap();
    assert_eq!(route, segs(&["index.html"]));
    let base_canon = segs(&["srv", "pages"]);
    let cand_canon = segs(&["srv", "pages", "index.html"]);
    assert!(is_within_base(&base_canon, &cand_canon));
    let head = response_head(true, 12);
    assert_eq!(
        head.as_str(),
        "HTTP/1.1 200 Ok\r\nContent-Length: 12\r\nContent-Type: text/html; charset=utf-8\r\n\r\n"
    );
}

/// A traversal attempt: `GET /../../etc/passwd HTTP/1.1`. The `..`
/// segments survive normalization, so canonicalization lands outside the
/// base directory; the confinement check rejects the candidate and the
/// response is the 404 page, never the file itself.
#[test]
fn scenario_traversal_attempt_gets_not_found() {
    let req = Request::new(Some("GET /../../etc/passwd HTTP/1.1")).unwrap();
    let route = Request::normalize_path_string(req.url().as_str()).unwrap();
    assert_eq!(route, segs(&["..", "..", "etc", "passwd", "index.html"]));
    let base_canon = segs(&["srv", "pages"]);
    let cand_canon = segs(&["etc", "passwd", "index.html"]);
    assert!(!is_within_base(&base_canon, &cand_canon));
    let head = response_head(false, 150);
    assert!(head.starts_with("HTTP/1.1 404 NOT FOUND\r\n"));
}

/// A symlink escape: the candidate lies inside the base directory by
/// name, but its canonical form (the symlink's real target) does not; the
/// confinement check rejects it.
#[test]
fn scenario_symlink_escape_gets_not_found() {
    let base_canon = segs(&["srv", "pages"]);
    let cand_canon = segs(&["home", "secrets", "index.html"]);
    assert!(!is_within_base(&base_canon, &cand_canon));
}

/// A request with a query string and fragment routes exactly as the bare
/// path does.
#[test]
fn scenario_query_routes_like_bare_path() {
    let with_query = Request::new(Some("GET /docs?x=1#top HTTP/1.1")).unwrap();
    let bare = Request::new(Some("GET /docs HTTP/1.1")).unwrap();
    let a = Request::normalize_path_string(with_query.url().as_str()).unwrap();
    let b = Request::normalize_path_string(bare.url().as_str()).unwrap();
    assert_eq!(a, b);
    assert_eq!(a, segs(&["docs", "index.html"]));
}

/// An empty connection: no request line at all ends the cycle with
/// `EmptyRequest`, before any response is framed.
#[test]
fn scenario_empty_connection_ends_cycle() {
    let outcome = Request::new(None);
    assert_eq!(outcome.unwrap_err(), RequestError::EmptyRequest);
}
