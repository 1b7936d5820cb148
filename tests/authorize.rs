use oxify::authorize::{auth_query, build_authorization_url, new_nonce, NONCE_LENGTH, REDIRECT_URI};
use oxify::query::query_value;
use oxify::text::{decimal_text, split_text, text_until};
use std::collections::HashSet;

fn query_of(url: &str) -> &str {
    let start = url.find('?').unwrap();
    &url[start + 1..]
}

#[test]
fn nonce_is_sixteen_alphanumerics() {
    let n = new_nonce();
    assert_eq!(n.chars().count(), NONCE_LENGTH);
    assert_eq!(NONCE_LENGTH, 16);
    assert!(n.chars().all(|c| c.is_ascii_alphanumeric()));
}

#[test]
fn nonces_do_not_repeat() {
    let mut seen = HashSet::new();
    for _ in 0..2000 {
        assert!(seen.insert(new_nonce()));
    }
}

#[test]
fn url_query_round_trips() {
    let state = new_nonce();
    let url = auth_query(&state, "a4df561fbabb40a3b3ead45196990b6d");
    let q = query_of(&url);
    assert_eq!(query_value(q, "client_id").as_deref(), Some("a4df561fbabb40a3b3ead45196990b6d"));
    assert_eq!(query_value(q, "redirect_uri").as_deref(), Some(REDIRECT_URI));
    assert_eq!(query_value(q, "state").as_deref(), Some(state.as_str()));
    assert_eq!(query_value(q, "response_type").as_deref(), Some("code"));
}

#[test]
fn url_exact_text() {
    let url = build_authorization_url("cid", "http://127.0.0.1:60069/authorization/callback", &["a", "b"], "st");
    assert_eq!(
        url,
        "https://accounts.spotify.com/authorize?client_id=cid&response_type=code&scope=a%20b&redirect_uri=http://127.0.0.1:60069/authorization/callback&state=st"
    );
    let none = build_authorization_url("c", "r", &[], "s");
    assert_eq!(none, "https://accounts.spotify.com/authorize?client_id=c&response_type=code&scope=&redirect_uri=r&state=s");
}

#[test]
fn application_url_has_all_scopes() {
    let url = auth_query("XYZ", "id");
    assert!(url.starts_with("https://accounts.spotify.com/authorize?client_id=id&response_type=code&scope=user-read-playback-state%20user-modify-playback-state%20"));
    assert!(url.ends_with("%20user-read-private&redirect_uri=http://localhost:60069/authorization/callback&state=XYZ"));
    assert_eq!(url.matches("%20").count(), 15);
}

#[test]
fn split_keeps_empty_pieces() {
    assert_eq!(split_text("a&&b&", '&'), vec!["a", "", "b", ""]);
    assert_eq!(split_text("", '&'), vec![""]);
}

#[test]
fn text_until_stops_at_first() {
    assert_eq!(text_until("ab cd ef", ' '), "ab");
    assert_eq!(text_until("abc", ' '), "abc");
}

#[test]
fn decimal_numerals() {
    assert_eq!(decimal_text(0), "0");
    assert_eq!(decimal_text(7), "7");
    assert_eq!(decimal_text(10), "10");
    assert_eq!(decimal_text(1234567890), "1234567890");
}

#[test]
fn query_value_takes_value_up_to_next_equals() {
    assert_eq!(query_value("a=b=c", "a").as_deref(), Some("b"));
    assert_eq!(query_value("a=", "a").as_deref(), Some(""));
    assert_eq!(query_value("a", "a"), None);
    assert_eq!(query_value("x=1", "a"), None);
}
