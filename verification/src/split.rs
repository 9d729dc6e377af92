//! Splitting a sequence of characters on separator characters, keeping only
//! the non-empty pieces. One machinery serves the request-line tokenizer
//! (ASCII whitespace), URL path segmenting (`/`), and the scan for the start
//! of a query string or fragment (`?`/`#`).

use vstd::prelude::*;

verus! {

/// Which characters count as separators for one splitting pass.
#[derive(Clone, Copy, Debug)]
pub enum SepKind {
    /// ASCII whitespace, as the request-line tokenizer uses.
    Whitespace,
    /// `/`, as URL path segmenting uses.
    Slash,
    /// `?` or `#`, the characters that end the routing key of a URL path.
    QueryOrFragment,
}

/// Whether `c` is a separator character for `kind`.
pub open spec fn is_sep(kind: SepKind, c: char) -> bool {
    match kind {
        SepKind::Whitespace => c == ' ' || c == '\t' || c == '\n' || c == '\u{c}' || c == '\r',
        SepKind::Slash => c == '/',
        SepKind::QueryOrFragment => c == '?' || c == '#',
    }
}

/// The first position at or after `i` that holds a separator, or `s.len()`
/// if none follows.
pub open spec fn sep_end(kind: SepKind, s: Seq<char>, i: int) -> int
    decreases s.len() - i,
{
    if i >= s.len() {
        s.len() as int
    } else if is_sep(kind, s[i]) {
        i
    } else {
        sep_end(kind, s, i + 1)
    }
}

pub proof fn lemma_sep_end_bounds(kind: SepKind, s: Seq<char>, i: int)
    requires
        0 <= i <= s.len(),
    ensures
        i <= sep_end(kind, s, i) <= s.len(),
        forall|k: int| i <= k < sep_end(kind, s, i) ==> !is_sep(kind, s[k]),
        sep_end(kind, s, i) < s.len() ==> is_sep(kind, s[sep_end(kind, s, i)]),
    decreases s.len() - i,
{
    if i < s.len() && !is_sep(kind, s[i]) {
        lemma_sep_end_bounds(kind, s, i + 1);
    }
}

/// `sep_end` is pinned down by its characteristic property: a run of
/// non-separators from `i` up to `j`, with `j` at the end or on a separator.
pub proof fn lemma_sep_end_eq(kind: SepKind, s: Seq<char>, i: int, j: int)
    requires
        0 <= i <= j <= s.len(),
        forall|k: int| i <= k < j ==> !is_sep(kind, s[k]),
        j == s.len() || is_sep(kind, s[j]),
    ensures
        sep_end(kind, s, i) == j,
    decreases j - i,
{
    if i < j {
        lemma_sep_end_eq(kind, s, i + 1, j);
    }
}

/// The maximal runs of non-separator characters of `s` at or after
/// position `i`, in order.
pub open spec fn pieces_from(kind: SepKind, s: Seq<char>, i: int) -> Seq<Seq<char>>
    decreases s.len() - i,
    via pieces_from_decreases
{
    if i < 0 || i >= s.len() {
        Seq::empty()
    } else if is_sep(kind, s[i]) {
        pieces_from(kind, s, i + 1)
    } else {
        seq![s.subrange(i, sep_end(kind, s, i))] + pieces_from(kind, s, sep_end(kind, s, i))
    }
}

#[via_fn]
proof fn pieces_from_decreases(kind: SepKind, s: Seq<char>, i: int) {
    if 0 <= i && i < s.len() && !is_sep(kind, s[i]) {
        lemma_sep_end_bounds(kind, s, i + 1);
        assert(sep_end(kind, s, i) == sep_end(kind, s, i + 1));
    }
}

/// The maximal runs of non-separator characters of `s`: splitting on the
/// separators of `kind` with every empty piece dropped.
pub open spec fn pieces(kind: SepKind, s: Seq<char>) -> Seq<Seq<char>> {
    pieces_from(kind, s, 0)
}

/// Whether `c` is a separator character for `kind`.
pub fn is_sep_char(kind: SepKind, c: char) -> (r: bool)
    ensures
        r == is_sep(kind, c),
{
    match kind {
        SepKind::Whitespace => c == ' ' || c == '\t' || c == '\n' || c == '\u{c}' || c == '\r',
        SepKind::Slash => c == '/',
        SepKind::QueryOrFragment => c == '?' || c == '#',
    }
}

/// The first position at or after `from` that holds a separator of `kind`,
/// or the length of `s` if none follows.
pub fn find_sep(s: &str, kind: SepKind, from: usize) -> (r: usize)
    requires
        from <= s@.len(),
    ensures
        r == sep_end(kind, s@, from as int),
{
    let len = s.unicode_len();
    let mut j = from;
    while j < len
        invariant
            from <= j <= len,
            len == s@.len(),
            sep_end(kind, s@, from as int) == sep_end(kind, s@, j as int),
        decreases len - j,
    {
        let c = s.get_char(j);
        if is_sep_char(kind, c) {
            return j;
        }
        j += 1;
    }
    j
}

/// Splits `s` on the separators of `kind` and drops every empty piece: the
/// result holds exactly the maximal non-separator runs of `s`, in order.
pub fn split_nonempty(s: &str, kind: SepKind) -> (r: Vec<String>)
    ensures
        r.deep_view() == pieces(kind, s@),
{
    let len = s.unicode_len();
    let mut out: Vec<String> = Vec::new();
    let mut i: usize = 0;
    while i < len
        invariant
            i <= len,
            len == s@.len(),
            pieces(kind, s@) == out.deep_view() + pieces_from(kind, s@, i as int),
        decreases len - i,
    {
        let c = s.get_char(i);
        if is_sep_char(kind, c) {
            i += 1;
        } else {
            let j = find_sep(s, kind, i);
            proof {
                lemma_sep_end_bounds(kind, s@, i + 1);
                assert(sep_end(kind, s@, i as int) == sep_end(kind, s@, i + 1));
            }
            let ghost dv0 = out.deep_view();
            let piece = s.substring_char(i, j).to_owned();
            out.push(piece);
            proof {
                assert(out.deep_view() =~= dv0.push(s@.subrange(i as int, j as int)));
                assert(dv0 + pieces_from(kind, s@, i as int) =~= out.deep_view() + pieces_from(
                    kind,
                    s@,
                    j as int,
                ));
            }
            i = j;
        }
    }
    proof {
        assert(out.deep_view() + pieces_from(kind, s@, i as int) =~= out.deep_view());
    }
    out
}

} // verus!
