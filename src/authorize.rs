//! The CSRF `state` nonce of a login attempt and the provider's authorization URL.
use vstd::prelude::*;
use rand::distributions::{Alphanumeric, DistString};
use crate::text::{count_before, join_with, split, split_fold};
use crate::query::{lookup_pieces, pair_of, query_lookup};

verus! {

/// Number of characters of a login attempt's `state` nonce.
pub const NONCE_LENGTH: usize = 16;

/// The provider's authorization endpoint.
pub const AUTHORIZE_ENDPOINT: &'static str = "https://accounts.spotify.com/authorize";

/// The loopback redirect registered with the provider.
pub const REDIRECT_URI: &'static str = "http://localhost:60069/authorization/callback";

/// The permissions that the application asks for.
pub const OAUTH_SCOPES: [&'static str; 16] = [
    "user-read-playback-state",
    "user-modify-playback-state",
    "user-read-currently-playing",
    "app-remote-control",
    "streaming",
    "playlist-read-private",
    "playlist-read-collaborative",
    "playlist-modify-private",
    "playlist-modify-public",
    "user-read-playback-position",
    "user-top-read",
    "user-read-recently-played",
    "user-library-modify",
    "user-library-read",
    "user-read-email",
    "user-read-private",
];

/// An ASCII letter or digit.
pub open spec fn is_alphanumeric(c: char) -> bool {
    ('a' <= c && c <= 'z') || ('A' <= c && c <= 'Z') || ('0' <= c && c <= '9')
}

/// Relies on rand's `Alphanumeric.sample_string` with the thread-local
/// generator: `len` characters, each one of A-Z, a-z, 0-9.
#[verifier::external_body]
fn random_alphanumeric(len: usize) -> (r: String)
    ensures
        r@.len() == len,
        forall|i: int| 0 <= i < r@.len() ==> is_alphanumeric(#[trigger] r@[i]),
{
    Alphanumeric.sample_string(&mut rand::thread_rng(), len)
}

/// A fresh random `state` nonce for one login attempt.
pub fn new_nonce() -> (r: String)
    ensures
        r@.len() == NONCE_LENGTH,
        forall|i: int| 0 <= i < r@.len() ==> is_alphanumeric(#[trigger] r@[i]),
{
    random_alphanumeric(NONCE_LENGTH)
}

/// One `key=value` query parameter.
pub open spec fn param(key: Seq<char>, value: Seq<char>) -> Seq<char> {
    key + seq!['='] + value
}

/// The query of the authorization URL, its parameters in a fixed order.
pub open spec fn authorization_query(
    client_id: Seq<char>,
    redirect_uri: Seq<char>,
    scopes: Seq<Seq<char>>,
    state: Seq<char>,
) -> Seq<char> {
    param("client_id"@, client_id) + seq!['&'] + param("response_type"@, "code"@) + seq!['&']
        + param("scope"@, join_with(scopes, "%20"@)) + seq!['&'] + param(
        "redirect_uri"@,
        redirect_uri,
    ) + seq!['&'] + param("state"@, state)
}

/// The authorization URL: the endpoint, `?`, and the query.
pub open spec fn authorization_url(
    client_id: Seq<char>,
    redirect_uri: Seq<char>,
    scopes: Seq<Seq<char>>,
    state: Seq<char>,
) -> Seq<char> {
    AUTHORIZE_ENDPOINT@ + seq!['?'] + authorization_query(client_id, redirect_uri, scopes, state)
}

/// The views of a slice of texts.
pub open spec fn texts_view(items: Seq<&str>) -> Seq<Seq<char>> {
    items.map_values(|t: &str| t@)
}

fn push_param(url: &mut String, key: &str, value: &str)
    ensures
        final(url)@ == old(url)@ + param(key@, value@),
{
    proof {
        reveal_strlit("=");
    }
    url.append(key);
    url.append("=");
    url.append(value);
    assert(final(url)@ =~= old(url)@ + param(key@, value@));
}

/// The URL that starts an authorization-code login with the given client,
/// redirect, permissions and `state`.
pub fn build_authorization_url(
    client_id: &str,
    redirect_uri: &str,
    scopes: &[&str],
    state: &str,
) -> (r: String)
    ensures
        r@ == authorization_url(client_id@, redirect_uri@, texts_view(scopes@), state@),
{
    proof {
        reveal_strlit("?");
        reveal_strlit("&");
    }
    let mut scope = String::new();
    let mut i: usize = 0;
    while i < scopes.len()
        invariant
            i <= scopes@.len(),
            scope@ == join_with(texts_view(scopes@).take(i as int), "%20"@),
        decreases scopes@.len() - i,
    {
        proof {
            assert(texts_view(scopes@).take(i + 1).drop_last() =~= texts_view(scopes@).take(i as int));
        }
        if i > 0 {
            scope.append("%20");
        }
        scope.append(scopes[i]);
        proof {
            if i == 0 {
                assert(scope@ =~= texts_view(scopes@).take(1)[0]);
            }
        }
        i = i + 1;
    }
    assert(texts_view(scopes@).take(scopes@.len() as int) =~= texts_view(scopes@));
    let mut url = String::from_str(AUTHORIZE_ENDPOINT);
    url.append("?");
    push_param(&mut url, "client_id", client_id);
    url.append("&");
    push_param(&mut url, "response_type", "code");
    url.append("&");
    push_param(&mut url, "scope", scope.as_str());
    url.append("&");
    push_param(&mut url, "redirect_uri", redirect_uri);
    url.append("&");
    push_param(&mut url, "state", state);
    assert(url@ =~= authorization_url(client_id@, redirect_uri@, texts_view(scopes@), state@));
    url
}

/// The authorization URL of this application for `client_id`, with the
/// registered loopback redirect and the application's permissions.
pub fn auth_query(state: &str, client_id: &str) -> (r: String)
    ensures
        r@ == authorization_url(client_id@, REDIRECT_URI@, texts_view(OAUTH_SCOPES@), state@),
{
    build_authorization_url(client_id, REDIRECT_URI, &OAUTH_SCOPES, state)
}

/// The query of a URL: the text after its first `?`.
pub open spec fn url_query(url: Seq<char>) -> Seq<char> {
    url.subrange(count_before(url, '?') as int + 1, url.len() as int)
}

/// No character of `s` is `c`.
pub open spec fn free_of(s: Seq<char>, c: char) -> bool {
    forall|i: int| 0 <= i < s.len() ==> s[i] != c
}

proof fn lemma_split_free(s: Seq<char>, sep: char)
    requires
        free_of(s, sep),
    ensures
        split_fold(s, sep) == (Seq::<Seq<char>>::empty(), s),
        split(s, sep) == seq![s],
    decreases s.len(),
{
    if s.len() > 0 {
        lemma_split_free(s.drop_last(), sep);
        assert(s.drop_last().push(s.last()) =~= s);
    }
    assert(Seq::<Seq<char>>::empty().push(s) =~= seq![s]);
}

proof fn lemma_split_fold_concat(a: Seq<char>, b: Seq<char>, sep: char)
    ensures
        split_fold(a + seq![sep] + b, sep) == (
            split(a, sep) + split_fold(b, sep).0,
            split_fold(b, sep).1,
        ),
    decreases b.len(),
{
    let s = a + seq![sep] + b;
    if b.len() == 0 {
        assert(s.drop_last() =~= a);
        assert(split(a, sep) + Seq::<Seq<char>>::empty() =~= split(a, sep));
    } else {
        lemma_split_fold_concat(a, b.drop_last(), sep);
        assert(s.drop_last() =~= a + seq![sep] + b.drop_last());
        let (d, o) = split_fold(b.drop_last(), sep);
        assert((split(a, sep) + d).push(o) =~= split(a, sep) + d.push(o));
    }
}

/// Splitting at a separator that stands between `a` and `b`.
proof fn lemma_split_concat(a: Seq<char>, b: Seq<char>, sep: char)
    ensures
        split(a + seq![sep] + b, sep) == split(a, sep) + split(b, sep),
{
    lemma_split_fold_concat(a, b, sep);
    let (d, o) = split_fold(b, sep);
    assert((split(a, sep) + d).push(o) =~= split(a, sep) + d.push(o));
}

proof fn lemma_count_before_prefix(e: Seq<char>, c: char, rest: Seq<char>)
    requires
        free_of(e, c),
    ensures
        count_before(e + seq![c] + rest, c) == e.len(),
    decreases e.len(),
{
    let s = e + seq![c] + rest;
    if e.len() > 0 {
        assert(s.drop_first() =~= e.drop_first() + seq![c] + rest);
        lemma_count_before_prefix(e.drop_first(), c, rest);
    }
}

proof fn lemma_join_free(items: Seq<Seq<char>>, sep: Seq<char>, c: char)
    requires
        free_of(sep, c),
        forall|i: int| 0 <= i < items.len() ==> free_of(#[trigger] items[i], c),
    ensures
        free_of(join_with(items, sep), c),
    decreases items.len(),
{
    if items.len() > 1 {
        lemma_join_free(items.drop_last(), sep, c);
        assert(free_of(items[items.len() - 1], c));
    } else if items.len() == 1 {
        assert(free_of(items[0], c));
    }
}

/// The key of a parameter, and its value where that holds no `=`.
proof fn lemma_param_pair(k: Seq<char>, v: Seq<char>)
    requires
        free_of(k, '='),
        k.len() > 0,
    ensures
        split(param(k, v), '=').len() >= 2,
        split(param(k, v), '=')[0] == k,
        free_of(v, '=') ==> pair_of(param(k, v)) == Some((k, v)),
{
    lemma_split_concat(k, v, '=');
    lemma_split_free(k, '=');
    if free_of(v, '=') {
        lemma_split_free(v, '=');
    }
}

/// Re-parsing the query of an authorization URL gives back the client id,
/// the redirect URI and the `state` that it was built from, provided none of
/// them holds `&` or `=` and no permission holds `&`.
pub proof fn lemma_url_round_trip(
    client_id: Seq<char>,
    redirect_uri: Seq<char>,
    scopes: Seq<Seq<char>>,
    state: Seq<char>,
)
    requires
        free_of(client_id, '&'),
        free_of(client_id, '='),
        free_of(redirect_uri, '&'),
        free_of(redirect_uri, '='),
        free_of(state, '&'),
        free_of(state, '='),
        forall|i: int| 0 <= i < scopes.len() ==> free_of(#[trigger] scopes[i], '&'),
    ensures
        query_lookup(url_query(authorization_url(client_id, redirect_uri, scopes, state)), "client_id"@)
            == Some(client_id),
        query_lookup(
            url_query(authorization_url(client_id, redirect_uri, scopes, state)),
            "redirect_uri"@,
        ) == Some(redirect_uri),
        query_lookup(url_query(authorization_url(client_id, redirect_uri, scopes, state)), "state"@)
            == Some(state),
{
    reveal_strlit("https://accounts.spotify.com/authorize");
    reveal_strlit("client_id");
    reveal_strlit("response_type");
    reveal_strlit("code");
    reveal_strlit("scope");
    reveal_strlit("redirect_uri");
    reveal_strlit("state");
    reveal_strlit("%20");
    let q = authorization_query(client_id, redirect_uri, scopes, state);
    assert(free_of(AUTHORIZE_ENDPOINT@, '?'));
    lemma_count_before_prefix(AUTHORIZE_ENDPOINT@, '?', q);
    let url = authorization_url(client_id, redirect_uri, scopes, state);
    assert(url_query(url) =~= q);

    let joined = join_with(scopes, "%20"@);
    lemma_join_free(scopes, "%20"@, '&');
    let p1 = param("client_id"@, client_id);
    let p2 = param("response_type"@, "code"@);
    let p3 = param("scope"@, joined);
    let p4 = param("redirect_uri"@, redirect_uri);
    let p5 = param("state"@, state);
    assert(free_of(p1, '&'));
    assert(free_of(p2, '&'));
    assert(free_of(p3, '&'));
    assert(free_of(p4, '&'));
    assert(free_of(p5, '&'));
    lemma_split_free(p1, '&');
    lemma_split_free(p2, '&');
    lemma_split_free(p3, '&');
    lemma_split_free(p4, '&');
    lemma_split_free(p5, '&');
    let a1 = p1;
    let a2 = a1 + seq!['&'] + p2;
    let a3 = a2 + seq!['&'] + p3;
    let a4 = a3 + seq!['&'] + p4;
    lemma_split_concat(a1, p2, '&');
    lemma_split_concat(a2, p3, '&');
    lemma_split_concat(a3, p4, '&');
    lemma_split_concat(a4, p5, '&');
    let pieces = seq![p1, p2, p3, p4, p5];
    assert(split(q, '&') =~= pieces);

    lemma_param_pair("client_id"@, client_id);
    lemma_param_pair("response_type"@, "code"@);
    lemma_param_pair("scope"@, joined);
    lemma_param_pair("redirect_uri"@, redirect_uri);
    lemma_param_pair("state"@, state);

    assert(pieces.drop_last() =~= seq![p1, p2, p3, p4]);
    assert(seq![p1, p2, p3, p4].drop_last() =~= seq![p1, p2, p3]);
    assert(seq![p1, p2, p3].drop_last() =~= seq![p1, p2]);
    assert(seq![p1, p2].drop_last() =~= seq![p1]);
    assert(lookup_pieces(pieces, "state"@) == Some(state));
    assert("state"@ != "redirect_uri"@ && "state"@ != "client_id"@);
    assert("redirect_uri"@ != "client_id"@ && "scope"@ != "client_id"@);
    assert("response_type"@ != "client_id"@);
    assert(lookup_pieces(pieces, "redirect_uri"@) == lookup_pieces(seq![p1, p2, p3, p4], "redirect_uri"@));
    assert(lookup_pieces(pieces, "redirect_uri"@) == Some(redirect_uri));
    assert(lookup_pieces(pieces, "client_id"@) == lookup_pieces(seq![p1, p2, p3, p4], "client_id"@));
    assert(lookup_pieces(seq![p1, p2, p3, p4], "client_id"@) == lookup_pieces(seq![p1, p2, p3], "client_id"@));
    assert(lookup_pieces(seq![p1, p2, p3], "client_id"@) == lookup_pieces(seq![p1, p2], "client_id"@));
    assert(lookup_pieces(seq![p1, p2], "client_id"@) == lookup_pieces(seq![p1], "client_id"@));
    assert(lookup_pieces(pieces, "client_id"@) == Some(client_id));
}

} // verus!
