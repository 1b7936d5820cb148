//! `&`-separated `key=value` query strings.
use vstd::prelude::*;
use crate::text::{split, split_text, starts_with, has_prefix};

verus! {

/// The key and value of one `key=value` piece: the text before the first `=`
/// and the text between it and the next `=`; `None` for a piece without `=`.
pub open spec fn pair_of(piece: Seq<char>) -> Option<(Seq<char>, Seq<char>)> {
    let parts = split(piece, '=');
    if parts.len() >= 2 {
        Some((parts[0], parts[1]))
    } else {
        None
    }
}

/// The value of the last piece among `pieces` whose key is `key`.
pub open spec fn lookup_pieces(pieces: Seq<Seq<char>>, key: Seq<char>) -> Option<Seq<char>>
    decreases pieces.len(),
{
    if pieces.len() == 0 {
        None
    } else {
        match pair_of(pieces.last()) {
            Some((k, v)) if k == key => Some(v),
            _ => lookup_pieces(pieces.drop_last(), key),
        }
    }
}

/// The value that `query` gives to `key`. Where a key occurs more than once,
/// its last occurrence wins; pieces without `=` are ignored.
pub open spec fn query_lookup(query: Seq<char>, key: Seq<char>) -> Option<Seq<char>> {
    lookup_pieces(split(query, '&'), key)
}

/// Whether two texts are equal, character by character.
pub fn same_text(a: &str, b: &str) -> (r: bool)
    ensures
        r == (a@ == b@),
{
    if a.unicode_len() != b.unicode_len() {
        return false;
    }
    let r = has_prefix(a, b);
    assert(a@.subrange(0, b@.len() as int) =~= a@);
    r
}

/// The value that `query` gives to `key` (see `query_lookup`).
pub fn query_value(query: &str, key: &str) -> (r: Option<String>)
    ensures
        r.deep_view() == query_lookup(query@, key@),
{
    let pieces = split_text(query, '&');
    let mut found: Option<String> = None;
    let mut i: usize = 0;
    while i < pieces.len()
        invariant
            i <= pieces.len(),
            pieces.deep_view() == split(query@, '&'),
            found.deep_view() == lookup_pieces(pieces.deep_view().take(i as int), key@),
        decreases pieces.len() - i,
    {
        let parts = split_text(pieces[i].as_str(), '=');
        proof {
            let seen = pieces.deep_view().take(i + 1);
            assert(seen.drop_last() =~= pieces.deep_view().take(i as int));
            assert(seen.last() == pieces[i as int]@);
        }
        if parts.len() >= 2 && same_text(parts[0].as_str(), key) {
            found = Some(parts[1].clone());
        }
        i = i + 1;
    }
    proof {
        assert(pieces.deep_view().take(pieces.len() as int) =~= pieces.deep_view());
    }
    found
}

} // verus!
