//! The graphical client's screens and what their messages lead to.
use vstd::prelude::*;

verus! {

/// What the welcome screen's controls send.
#[derive(Debug, Clone, Copy, PartialEq, Eq, Structural)]
pub enum WelcomeMessage {
    Login,
    OpenConfigDir,
    ReloadConfig,
    OpenWebsite,
}

/// What the welcome screen asks of the application.
#[derive(Debug, Clone, Copy, PartialEq, Eq, Structural)]
pub enum WelcomeEvent {
    LoginAttempt,
}

/// What the player screen asks of the application.
#[derive(Debug, Clone, Copy, PartialEq, Eq, Structural)]
pub enum PlayerEvent {
    LoginAttempt,
    ReloadConfigAttempt,
}

/// The welcome screen.
#[derive(Debug, Default, Clone, Copy)]
pub struct Welcome;

/// The screen on display.
#[derive(Debug, Clone, Copy)]
pub enum Screen {
    Welcome(Welcome),
}

impl Welcome {
    pub fn new() -> (r: Self) {
        Welcome
    }

    /// The event that `message` raises: a login attempt for `Login`, and none
    /// for the others, which the caller carries out itself (reloading the
    /// configuration, opening the configuration directory or the website).
    pub fn update(&mut self, message: WelcomeMessage) -> (r: Option<WelcomeEvent>)
        ensures
            r == (if message == WelcomeMessage::Login {
                Some(WelcomeEvent::LoginAttempt)
            } else {
                None
            }),
    {
        match message {
            WelcomeMessage::Login => Some(WelcomeEvent::LoginAttempt),
            _ => None,
        }
    }
}

/// The event that a welcome message raises on the player screen: a login
/// attempt for `Login`, a configuration reload for `ReloadConfig`, and none
/// for the others, which the caller carries out itself.
pub fn player_update(message: WelcomeMessage) -> (r: Option<PlayerEvent>)
    ensures
        r == (match message {
            WelcomeMessage::Login => Some(PlayerEvent::LoginAttempt),
            WelcomeMessage::ReloadConfig => Some(PlayerEvent::ReloadConfigAttempt),
            _ => None,
        }),
{
    match message {
        WelcomeMessage::Login => Some(PlayerEvent::LoginAttempt),
        WelcomeMessage::ReloadConfig => Some(PlayerEvent::ReloadConfigAttempt),
        _ => None,
    }
}

} // verus!
