//! Resolving a request URL path to a candidate file path and confining it
//! to the base directory.
//!
//! Routing is directory-style: the query string and fragment are stripped,
//! the remaining path is split on `/` with empty segments dropped, and a
//! terminal `index.html` segment is appended — every route resolves to the
//! `index.html` inside the directory its segments name. Filesystem paths
//! are modeled as their component sequences; the hosting process
//! canonicalizes against the live filesystem and hands the canonical
//! components back for the confinement check.

use crate::request::Request;
use crate::split::{
    find_sep, is_sep, lemma_sep_end_bounds, lemma_sep_end_eq, pieces, pieces_from, sep_end,
    split_nonempty, SepKind,
};
use vstd::prelude::*;

verus! {

/// The routing key of a request URL: everything before the first `?` or
/// `#` (query strings and fragments are not part of the routing key).
pub open spec fn route_key(url: Seq<char>) -> Seq<char> {
    url.subrange(0, sep_end(SepKind::QueryOrFragment, url, 0))
}

/// The normalized route of a request URL: the non-empty `/`-separated
/// segments of its routing key, with the terminal `index.html` segment
/// appended. `/` and the empty path resolve to `index.html` at the base
/// directory root.
pub open spec fn route_of(url: Seq<char>) -> Seq<Seq<char>> {
    pieces(SepKind::Slash, route_key(url)).push("index.html"@)
}

/// Component-wise path prefix: every component of `base` stands, in
/// order, at the head of `cand`. Components are compared whole, never as
/// raw string prefixes, so `base2` is not inside `base`.
pub open spec fn is_path_prefix(base: Seq<Seq<char>>, cand: Seq<Seq<char>>) -> bool {
    base.len() <= cand.len() && cand.subrange(0, base.len() as int) == base
}

impl Request {
    /// Normalizes a raw URL path into its route segments.
    ///
    /// Removes everything from the first `?` or `#` onward, splits on `/`
    /// ignoring leading, trailing and repeated slashes, and appends the
    /// terminal `index.html` segment.
    pub fn normalize_path_string(raw: &str) -> (r: Option<Vec<String>>)
        ensures
            r matches Some(v) && v.deep_view() == route_of(raw@),
    {
        proof {
            lemma_sep_end_bounds(SepKind::QueryOrFragment, raw@, 0);
        }
        let stop = find_sep(raw, SepKind::QueryOrFragment, 0);
        let key = raw.substring_char(0, stop);
        let mut segs = split_nonempty(key, SepKind::Slash);
        let ghost dv0 = segs.deep_view();
        segs.push(String::from_str("index.html"));
        proof {
            assert(segs.deep_view() =~= dv0.push("index.html"@));
        }
        Some(segs)
    }
}

/// Whether the canonical candidate path `cand` lies within the canonical
/// base directory `base`, both given as their path components: true
/// exactly when `base` is a component-wise prefix of `cand`.
pub fn is_within_base(base: &Vec<String>, cand: &Vec<String>) -> (r: bool)
    ensures
        r == is_path_prefix(base.deep_view(), cand.deep_view()),
{
    let ghost b = base.deep_view();
    let ghost c = cand.deep_view();
    if base.len() > cand.len() {
        return false;
    }
    let mut i: usize = 0;
    while i < base.len()
        invariant
            i <= base.len() <= cand.len(),
            b == base.deep_view(),
            c == cand.deep_view(),
            forall|k: int| 0 <= k < i ==> b[k] == c[k],
        decreases base.len() - i,
    {
        if !(base[i] == cand[i]) {
            proof {
                assert(c.subrange(0, b.len() as int)[i as int] == c[i as int]);
            }
            return false;
        }
        i += 1;
    }
    proof {
        assert(c.subrange(0, b.len() as int) =~= b);
    }
    true
}

/// The candidate file path for a request URL: the base directory's
/// components followed by the normalized route segments. Pure — the
/// caller canonicalizes the result against the live filesystem before the
/// confinement check.
pub fn resolve_route(base: &Vec<String>, url: &str) -> (r: Vec<String>)
    ensures
        r.deep_view() == base.deep_view() + route_of(url@),
{
    let ghost b = base.deep_view();
    let mut out: Vec<String> = Vec::new();
    let mut i: usize = 0;
    while i < base.len()
        invariant
            i <= base.len(),
            b == base.deep_view(),
            out.deep_view() =~= b.subrange(0, i as int),
        decreases base.len() - i,
    {
        let ghost dv0 = out.deep_view();
        out.push(base[i].clone());
        proof {
            assert(out.deep_view() =~= dv0.push(b[i as int]));
        }
        i += 1;
    }
    let mut segs = match Request::normalize_path_string(url) {
        Some(v) => v,
        None => Vec::new(),
    };
    let ghost dv1 = out.deep_view();
    out.append(&mut segs);
    proof {
        assert(dv1 =~= b);
        assert(out.deep_view() =~= b + route_of(url@));
    }
    out
}

/// Appending a separator character to a sequence leaves its non-empty
/// pieces unchanged.
proof fn lemma_pieces_push_sep_from(kind: SepKind, s: Seq<char>, c: char, i: int)
    requires
        is_sep(kind, c),
        0 <= i <= s.len(),
    ensures
        pieces_from(kind, s.push(c), i) == pieces_from(kind, s, i),
    decreases s.len() - i,
{
    let t = s.push(c);
    if i == s.len() {
        assert(is_sep(kind, t[i]));
        assert(pieces_from(kind, t, i) == pieces_from(kind, t, i + 1));
        assert(pieces_from(kind, t, i + 1) =~= Seq::<Seq<char>>::empty());
        assert(pieces_from(kind, s, i) =~= Seq::<Seq<char>>::empty());
    } else if is_sep(kind, s[i]) {
        assert(t[i] == s[i]);
        lemma_pieces_push_sep_from(kind, s, c, i + 1);
    } else {
        assert(t[i] == s[i]);
        lemma_sep_end_bounds(kind, s, i);
        let e = sep_end(kind, s, i);
        lemma_sep_end_eq(kind, t, i, e);
        assert(t.subrange(i, e) =~= s.subrange(i, e));
        lemma_pieces_push_sep_from(kind, s, c, e);
    }
}

/// Trailing-slash invariance: `<url>/` routes exactly as `<url>` does, so
/// resolving either under the same base directory yields the same
/// candidate path.
pub proof fn lemma_trailing_slash(url: Seq<char>)
    ensures
        route_of(url.push('/')) == route_of(url),
{
    let t = url.push('/');
    let n = url.len() as int;
    lemma_sep_end_bounds(SepKind::QueryOrFragment, url, 0);
    let m = sep_end(SepKind::QueryOrFragment, url, 0);
    if m < n {
        assert forall|k: int| 0 <= k < m implies !is_sep(SepKind::QueryOrFragment, t[k]) by {
            assert(t[k] == url[k]);
        }
        assert(is_sep(SepKind::QueryOrFragment, t[m]));
        lemma_sep_end_eq(SepKind::QueryOrFragment, t, 0, m);
        assert(route_key(t) =~= route_key(url));
    } else {
        assert(!is_sep(SepKind::QueryOrFragment, '/'));
        assert forall|k: int| 0 <= k < n + 1 implies !is_sep(SepKind::QueryOrFragment, t[k]) by {
            if k < n {
                assert(t[k] == url[k]);
            }
        }
        lemma_sep_end_eq(SepKind::QueryOrFragment, t, 0, n + 1);
        assert(route_key(t) =~= t);
        assert(route_key(url) =~= url);
        lemma_pieces_push_sep_from(SepKind::Slash, url, '/', 0);
        assert(pieces(SepKind::Slash, route_key(t)) == pieces(SepKind::Slash, route_key(url)));
    }
}

/// Query and fragment invariance: a URL whose routing key is `url`,
/// followed by `?` or `#` and anything at all, routes exactly as `url`
/// does.
pub proof fn lemma_query_ignored(url: Seq<char>, stop: char, rest: Seq<char>)
    requires
        is_sep(SepKind::QueryOrFragment, stop),
        forall|k: int| 0 <= k < url.len() ==> !is_sep(SepKind::QueryOrFragment, url[k]),
    ensures
        route_of(url + seq![stop] + rest) == route_of(url),
{
    let t = url + seq![stop] + rest;
    let n = url.len() as int;
    assert forall|k: int| 0 <= k < n implies !is_sep(SepKind::QueryOrFragment, t[k]) by {
        assert(t[k] == url[k]);
    }
    assert(t[n] == stop);
    lemma_sep_end_eq(SepKind::QueryOrFragment, t, 0, n);
    lemma_sep_end_eq(SepKind::QueryOrFragment, url, 0, n);
    assert(route_key(t) =~= url);
    assert(route_key(url) =~= url);
}

/// The root routes: `/` and the empty path both resolve to the single
/// segment `index.html`, the `index.html` at the base directory root.
pub proof fn lemma_root_route()
    ensures
        route_of("/"@) == seq!["index.html"@],
        route_of(""@) == seq!["index.html"@],
        route_of("/"@) == route_of(""@),
{
    reveal_strlit("/");
    reveal_strlit("");
    let s = "/"@;
    let e = ""@;
    assert(!is_sep(SepKind::QueryOrFragment, s[0]));
    assert(sep_end(SepKind::QueryOrFragment, s, 1) == 1);
    assert(sep_end(SepKind::QueryOrFragment, s, 0) == 1);
    assert(route_key(s) =~= s);
    assert(is_sep(SepKind::Slash, s[0]));
    assert(pieces_from(SepKind::Slash, s, 1) =~= Seq::<Seq<char>>::empty());
    assert(pieces(SepKind::Slash, s) =~= Seq::<Seq<char>>::empty());
    assert(route_of(s) =~= seq!["index.html"@]);
    assert(sep_end(SepKind::QueryOrFragment, e, 0) == 0);
    assert(route_key(e) =~= e);
    assert(pieces(SepKind::Slash, e) =~= Seq::<Seq<char>>::empty());
    assert(route_of(e) =~= seq!["index.html"@]);
}

} // verus!
