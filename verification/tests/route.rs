use rust_server::route::{is_within_base, resolve_route};
use rust_server::Request;

fn segs(parts: &[&str]) -> Vec<String> {
    parts.iter().map(|p| String::from(*p)).collect()
}

#[test]
fn normalize_root_and_empty_resolve_to_index() {
    assert_eq!(Request::normalize_path_string("/").unwrap(), segs(&["index.html"]));
    assert_eq!(Request::normalize_path_string("").unwrap(), segs(&["index.html"]));
}

#[test]
fn normalize_trailing_slash_is_idempotent() {
    let a = Request::normalize_path_string("/docs").unwrap();
    let b = Request::normalize_path_string("/docs/").unwrap();
    assert_eq!(a, b);
    assert_eq!(a, segs(&["docs", "index.html"]));
}

#[test]
fn normalize_strips_query_and_fragment() {
    let plain = Request::normalize_path_string("/docs").unwrap();
    let query = Request::normalize_path_string("/docs?x=1#top").unwrap();
    assert_eq!(plain, query);
    assert_eq!(
        Request::normalize_path_string("/?x=1").unwrap(),
        segs(&["index.html"])
    );
    assert_eq!(
        Request::normalize_path_string("/a#frag/b").unwrap(),
        segs(&["a", "index.html"])
    );
}

#[test]
fn normalize_collapses_repeated_slashes() {
    assert_eq!(
        Request::normalize_path_string("//a///b/").unwrap(),
        segs(&["a", "b", "index.html"])
    );
}

#[test]
fn normalize_keeps_dotdot_segments_for_canonicalization() {
    assert_eq!(
        Request::normalize_path_string("/../../etc/passwd").unwrap(),
        segs(&["..", "..", "etc", "passwd", "index.html"])
    );
}

#[test]
fn within_base_accepts_descendants() {
    let base = segs(&["srv", "pages"]);
    assert!(is_within_base(&base, &segs(&["srv", "pages", "index.html"])));
    assert!(is_within_base(&base, &segs(&["srv", "pages", "docs", "index.html"])));
    assert!(is_within_base(&base, &segs(&["srv", "pages"])));
}

#[test]
fn within_base_rejects_escapes() {
    let base = segs(&["srv", "pages"]);
    assert!(!is_within_base(&base, &segs(&["etc", "passwd"])));
    assert!(!is_within_base(&base, &segs(&["srv"])));
    assert!(!is_within_base(&base, &segs(&["srv", "other", "index.html"])));
}

#[test]
fn within_base_compares_whole_components() {
    let base = segs(&["srv", "pages"]);
    assert!(!is_within_base(&base, &segs(&["srv", "pages2", "index.html"])));
}

#[test]
fn resolve_route_joins_base_and_route() {
    let base = segs(&["pages"]);
    assert_eq!(
        resolve_route(&base, "/docs"),
        segs(&["pages", "docs", "index.html"])
    );
    assert_eq!(resolve_route(&base, "/"), segs(&["pages", "index.html"]));
    assert_eq!(resolve_route(&base, ""), segs(&["pages", "index.html"]));
}
