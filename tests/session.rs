use oxify::callback::HttpMessage;
use oxify::session::{AuthState, LoginState, SessionError};
use oxify::token::{ExchangeError, TokenPair};

fn pair(access: &str, refresh: &str, expires: i32) -> TokenPair {
    TokenPair { access_token: access.to_string(), refresh_token: refresh.to_string(), expires_in_seconds: expires }
}

fn logged_in() -> AuthState {
    let mut s = AuthState::default();
    s.start_login().unwrap();
    s.apply_exchange(Ok(pair("a", "r", 3600))).unwrap();
    s
}

#[test]
fn default_is_logged_out() {
    let s = AuthState::default();
    assert_eq!(s.login_state, LoginState::Out);
    assert!(s.access_token.is_none() && s.refresh_token.is_none() && s.expiration_time.is_none());
}

#[test]
fn login_only_from_out() {
    let mut s = AuthState::default();
    assert_eq!(s.start_login(), Ok(()));
    assert_eq!(s.login_state, LoginState::Loading);
    assert_eq!(s.start_login(), Err(SessionError::LoginInProgress));
    let mut i = logged_in();
    assert_eq!(i.start_login(), Err(SessionError::AlreadyLoggedIn));
    assert_eq!(i.login_state, LoginState::In);
}

#[test]
fn code_is_handed_back_for_exchange() {
    let mut s = AuthState::default();
    s.start_login().unwrap();
    let r = s.apply_callback(HttpMessage::AuthCode("abc".to_string()));
    assert_eq!(r, Ok(Some("abc".to_string())));
    assert_eq!(s.login_state, LoginState::Loading);
}

#[test]
fn callback_error_logs_out() {
    let mut s = AuthState::default();
    s.start_login().unwrap();
    assert_eq!(s.apply_callback(HttpMessage::Error("access_denied".to_string())), Ok(None));
    assert_eq!(s.login_state, LoginState::Out);
    s.start_login().unwrap();
    assert_eq!(s.apply_callback(HttpMessage::Cancelled), Ok(None));
    assert_eq!(s.login_state, LoginState::Out);
}

#[test]
fn callback_outside_login_is_refused() {
    let mut s = AuthState::default();
    assert_eq!(s.apply_callback(HttpMessage::AuthCode("x".to_string())), Err(SessionError::NotLoggingIn));
    assert_eq!(s.login_state, LoginState::Out);
}

#[test]
fn exchange_success_logs_in() {
    let s = logged_in();
    assert_eq!(s.login_state, LoginState::In);
    assert_eq!(s.access_token.as_deref(), Some("a"));
    assert_eq!(s.refresh_token.as_deref(), Some("r"));
    assert_eq!(s.expiration_time, Some(3600));
}

#[test]
fn exchange_failure_logs_out() {
    let mut s = AuthState::default();
    s.start_login().unwrap();
    assert_eq!(s.apply_exchange(Err(ExchangeError::MissingExpiry)), Ok(()));
    assert_eq!(s.login_state, LoginState::Out);
    assert!(s.access_token.is_none());
}

#[test]
fn refresh_replaces_tokens() {
    let mut s = logged_in();
    assert_eq!(s.apply_refresh(pair("b", "r2", 100)), Ok(()));
    assert_eq!(s.login_state, LoginState::In);
    assert_eq!(s.access_token.as_deref(), Some("b"));
    assert_eq!(s.refresh_token.as_deref(), Some("r2"));
    assert_eq!(s.expiration_time, Some(100));
    let mut o = AuthState::default();
    assert_eq!(o.apply_refresh(pair("b", "r2", 100)), Err(SessionError::NotLoggedIn));
    assert!(o.access_token.is_none());
}

#[test]
fn refresh_failure_logs_out() {
    let mut s = logged_in();
    assert_eq!(s.apply_refresh_failure(), Ok(()));
    assert_eq!(s.login_state, LoginState::Out);
    assert!(s.refresh_token.is_none());
    assert_eq!(s.apply_refresh_failure(), Err(SessionError::NotLoggedIn));
}

#[test]
fn logout_discards_tokens() {
    let mut s = logged_in();
    s.logout();
    assert_eq!(s.login_state, LoginState::Out);
    assert!(s.access_token.is_none() && s.refresh_token.is_none() && s.expiration_time.is_none());
}
