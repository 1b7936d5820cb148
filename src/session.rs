//! The authenticated session: its phase and tokens, and the only transitions
//! that move it.
use vstd::prelude::*;
use crate::callback::HttpMessage;
use crate::token::{ExchangeError, TokenPair};

verus! {

/// The phase of the session.
#[derive(Debug, Default, Clone, Copy, PartialEq, Eq, Structural)]
pub enum LoginState {
    In,
    #[default]
    Out,
    Loading,
}

/// The session as the rest of the application sees it. Only `In` carries
/// tokens; `expiration_time` is the lifetime in seconds reported when the
/// access token was issued.
#[derive(Debug, Clone)]
pub struct AuthState {
    pub login_state: LoginState,
    pub access_token: Option<String>,
    pub refresh_token: Option<String>,
    pub expiration_time: Option<i32>,
}

/// Why a transition was refused; the session is then left as it was.
#[derive(Debug, Clone, Copy, PartialEq, Eq, Structural)]
pub enum SessionError {
    /// A login attempt is already under way.
    LoginInProgress,
    /// The session is already authenticated.
    AlreadyLoggedIn,
    /// The event belongs to a login attempt, and none is under way.
    NotLoggingIn,
    /// The event belongs to an authenticated session, and there is none.
    NotLoggedIn,
}

impl AuthState {
    /// Tokens are present exactly when the session is `In`.
    pub open spec fn wf(&self) -> bool {
        match self.login_state {
            LoginState::In => self.access_token is Some && self.refresh_token is Some
                && self.expiration_time is Some,
            _ => self.access_token is None && self.refresh_token is None && self.expiration_time is None,
        }
    }

    /// The session in `phase`, with no tokens.
    pub open spec fn without_tokens(phase: LoginState) -> AuthState {
        AuthState { login_state: phase, access_token: None, refresh_token: None, expiration_time: None }
    }

    /// The authenticated session that holds `pair`.
    pub open spec fn holding(pair: TokenPair) -> AuthState {
        AuthState {
            login_state: LoginState::In,
            access_token: Some(pair.access_token),
            refresh_token: Some(pair.refresh_token),
            expiration_time: Some(pair.expires_in_seconds),
        }
    }

    fn enter(&mut self, pair: TokenPair)
        ensures
            *final(self) == AuthState::holding(pair),
            final(self).wf(),
    {
        self.login_state = LoginState::In;
        self.access_token = Some(pair.access_token);
        self.refresh_token = Some(pair.refresh_token);
        self.expiration_time = Some(pair.expires_in_seconds);
    }

    fn clear(&mut self, phase: LoginState)
        requires
            phase != LoginState::In,
        ensures
            *final(self) == AuthState::without_tokens(phase),
            final(self).wf(),
    {
        self.login_state = phase;
        self.access_token = None;
        self.refresh_token = None;
        self.expiration_time = None;
    }

    /// Begins a login attempt. Only a logged-out session can: one that is
    /// `Loading` or `In` refuses, unchanged.
    pub fn start_login(&mut self) -> (r: Result<(), SessionError>)
        ensures
            old(self).login_state == LoginState::Out ==> r is Ok && *final(self)
                == AuthState::without_tokens(LoginState::Loading),
            old(self).login_state == LoginState::Loading ==> r == Err::<(), _>(
                SessionError::LoginInProgress,
            ) && *final(self) == *old(self),
            old(self).login_state == LoginState::In ==> r == Err::<(), _>(SessionError::AlreadyLoggedIn)
                && *final(self) == *old(self),
            final(self).wf() || *final(self) == *old(self),
    {
        match self.login_state {
            LoginState::Out => {
                self.clear(LoginState::Loading);
                Ok(())
            },
            LoginState::Loading => Err(SessionError::LoginInProgress),
            LoginState::In => Err(SessionError::AlreadyLoggedIn),
        }
    }

    /// Takes the callback's result during a login attempt. An authorization
    /// code is handed back for exchange and the attempt goes on; an error or
    /// a cancellation ends it, logged out. Outside an attempt it refuses,
    /// unchanged.
    pub fn apply_callback(&mut self, message: HttpMessage) -> (r: Result<Option<String>, SessionError>)
        ensures
            old(self).login_state != LoginState::Loading ==> r == Err::<Option<String>, _>(
                SessionError::NotLoggingIn,
            ) && *final(self) == *old(self),
            old(self).login_state == LoginState::Loading ==> match message {
                HttpMessage::AuthCode(code) => r == Ok::<_, SessionError>(Some(code)) && *final(self)
                    == *old(self),
                _ => r == Ok::<_, SessionError>(None::<String>) && *final(self)
                    == AuthState::without_tokens(LoginState::Out),
            },
    {
        if self.login_state != LoginState::Loading {
            return Err(SessionError::NotLoggingIn);
        }
        match message {
            HttpMessage::AuthCode(code) => Ok(Some(code)),
            _ => {
                self.clear(LoginState::Out);
                Ok(None)
            },
        }
    }

    /// Takes the outcome of the code exchange during a login attempt: a pair
    /// logs the session in, an error logs it out. Outside an attempt it
    /// refuses, unchanged.
    pub fn apply_exchange(&mut self, outcome: Result<TokenPair, ExchangeError>) -> (r: Result<
        (),
        SessionError,
    >)
        ensures
            old(self).login_state != LoginState::Loading ==> r == Err::<(), _>(
                SessionError::NotLoggingIn,
            ) && *final(self) == *old(self),
            old(self).login_state == LoginState::Loading ==> r is Ok && match outcome {
                Ok(pair) => *final(self) == AuthState::holding(pair),
                Err(_) => *final(self) == AuthState::without_tokens(LoginState::Out),
            },
            final(self).wf() || *final(self) == *old(self),
    {
        if self.login_state != LoginState::Loading {
            return Err(SessionError::NotLoggingIn);
        }
        match outcome {
            Ok(pair) => self.enter(pair),
            Err(_) => self.clear(LoginState::Out),
        }
        Ok(())
    }

    /// Replaces the tokens of an authenticated session with a renewed pair;
    /// the session stays `In`. Without one it refuses, unchanged.
    pub fn apply_refresh(&mut self, pair: TokenPair) -> (r: Result<(), SessionError>)
        ensures
            old(self).login_state == LoginState::In ==> r is Ok && *final(self) == AuthState::holding(
                pair,
            ),
            old(self).login_state != LoginState::In ==> r == Err::<(), _>(SessionError::NotLoggedIn)
                && *final(self) == *old(self),
            final(self).wf() || *final(self) == *old(self),
    {
        if self.login_state != LoginState::In {
            return Err(SessionError::NotLoggedIn);
        }
        self.enter(pair);
        Ok(())
    }

    /// Ends an authenticated session whose renewal failed: logged out, tokens
    /// discarded. Without one it refuses, unchanged.
    pub fn apply_refresh_failure(&mut self) -> (r: Result<(), SessionError>)
        ensures
            old(self).login_state == LoginState::In ==> r is Ok && *final(self)
                == AuthState::without_tokens(LoginState::Out),
            old(self).login_state != LoginState::In ==> r == Err::<(), _>(SessionError::NotLoggedIn)
                && *final(self) == *old(self),
            final(self).wf() || *final(self) == *old(self),
    {
        if self.login_state != LoginState::In {
            return Err(SessionError::NotLoggedIn);
        }
        self.clear(LoginState::Out);
        Ok(())
    }

    /// Logs out from any phase, discarding the tokens.
    pub fn logout(&mut self)
        ensures
            *final(self) == AuthState::without_tokens(LoginState::Out),
            final(self).wf(),
    {
        self.clear(LoginState::Out);
    }
}

impl Default for AuthState {
    fn default() -> (r: AuthState)
        ensures
            r == AuthState::without_tokens(LoginState::Out),
    {
        AuthState { login_state: LoginState::Out, access_token: None, refresh_token: None, expiration_time: None }
    }
}

} // verus!
