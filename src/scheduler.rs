//! The refresh schedule of an authenticated session, as a state machine: the
//! caller sleeps, sends requests and delivers pairs as it is told, and feeds
//! back what happened.
use vstd::prelude::*;
use crate::token::{parse_response, token_outcome, ExchangeError, TokenPair, TokenResponse};

verus! {

/// Seconds before expiry at which a token pair is renewed, to absorb clock
/// skew and request latency.
pub const REFRESH_MARGIN_SECONDS: i32 = 60;

/// Seconds to wait before renewing a pair that lives `expires_in` seconds:
/// the lifetime less the margin, and none where that is not positive.
pub open spec fn delay_for(expires_in: i32) -> int {
    if expires_in > REFRESH_MARGIN_SECONDS {
        expires_in - REFRESH_MARGIN_SECONDS
    } else {
        0
    }
}

/// The wait before renewing a pair that lives `expires_in` seconds (see `delay_for`).
pub fn refresh_delay(expires_in: i32) -> (r: u64)
    ensures
        r == delay_for(expires_in),
{
    if expires_in > REFRESH_MARGIN_SECONDS {
        (expires_in - REFRESH_MARGIN_SECONDS) as u64
    } else {
        0
    }
}

/// Where the schedule stands.
#[derive(Debug, Clone, Copy, PartialEq, Eq, Structural)]
pub enum SchedulerPhase {
    /// Sleeping until the current pair is due.
    Waiting,
    /// A refresh request is outstanding.
    Refreshing,
    /// A new pair waits to be delivered to the session.
    Publishing,
    /// Ended, by a fatal error or by cancellation.
    Stopped,
}

/// What happened since the last action.
#[derive(Debug)]
pub enum SchedulerEvent {
    /// The wait of a `Sleep` elapsed.
    Woke,
    /// The token endpoint answered a refresh request: its status, its raw
    /// body, and the fields decoded from it, if it is a token response.
    Refreshed { status: u16, body: String, decoded: Option<TokenResponse> },
    /// The refresh request did not complete.
    RefreshFailed(ExchangeError),
    /// The pair of a `Publish` has been handed to the session.
    Delivered,
    /// The session ended; the schedule is to stop.
    Cancel,
}

/// What the caller is to do next.
#[derive(Debug)]
pub enum SchedulerAction {
    /// Sleep this many seconds, then report `Woke`.
    Sleep(u64),
    /// Send a refresh request with this refresh token, then report its outcome.
    Refresh(String),
    /// Hand this pair to the session, then report `Delivered`.
    Publish(TokenPair),
    /// Report this error to the session; the schedule has ended.
    Fatal(ExchangeError),
    /// The schedule has ended.
    Finish,
}

/// The first step for `pair`: wait until it is due, or, where it is due
/// already, refresh at once.
pub open spec fn schedule(pair: TokenPair) -> (SchedulerPhase, SchedulerAction) {
    if delay_for(pair.expires_in_seconds) > 0 {
        (SchedulerPhase::Waiting, SchedulerAction::Sleep(delay_for(pair.expires_in_seconds) as u64))
    } else {
        (SchedulerPhase::Refreshing, SchedulerAction::Refresh(pair.refresh_token))
    }
}

/// The action that a phase waits on, repeated for an event it does not expect.
pub open spec fn pending(phase: SchedulerPhase, current: TokenPair) -> SchedulerAction {
    match phase {
        SchedulerPhase::Waiting => SchedulerAction::Sleep(delay_for(current.expires_in_seconds) as u64),
        SchedulerPhase::Refreshing => SchedulerAction::Refresh(current.refresh_token),
        SchedulerPhase::Publishing => SchedulerAction::Publish(current),
        SchedulerPhase::Stopped => SchedulerAction::Finish,
    }
}

/// The schedule's transition from `phase` with `current` as the pair in use:
/// the next phase, the next pair in use, and the action.
/// A refresh reply that gives no refresh token keeps the one in use.
pub open spec fn scheduler_transition(
    phase: SchedulerPhase,
    current: TokenPair,
    event: SchedulerEvent,
) -> (SchedulerPhase, TokenPair, SchedulerAction) {
    if phase == SchedulerPhase::Stopped {
        (phase, current, SchedulerAction::Finish)
    } else {
        match event {
            SchedulerEvent::Cancel => (SchedulerPhase::Stopped, current, SchedulerAction::Finish),
            SchedulerEvent::Woke if phase == SchedulerPhase::Waiting => (
                SchedulerPhase::Refreshing,
                current,
                SchedulerAction::Refresh(current.refresh_token),
            ),
            SchedulerEvent::Refreshed { status, body, decoded } if phase
                == SchedulerPhase::Refreshing => match token_outcome(
                status,
                body,
                decoded,
                Some(current.refresh_token),
            ) {
                Ok(next) => (SchedulerPhase::Publishing, next, SchedulerAction::Publish(next)),
                Err(e) => (SchedulerPhase::Stopped, current, SchedulerAction::Fatal(e)),
            },
            SchedulerEvent::RefreshFailed(e) if phase == SchedulerPhase::Refreshing => (
                SchedulerPhase::Stopped,
                current,
                SchedulerAction::Fatal(e),
            ),
            SchedulerEvent::Delivered if phase == SchedulerPhase::Publishing => (
                schedule(current).0,
                current,
                schedule(current).1,
            ),
            _ => (phase, current, pending(phase, current)),
        }
    }
}

/// A copy of `pair`.
pub fn copy_pair(pair: &TokenPair) -> (r: TokenPair)
    ensures
        r == *pair,
{
    TokenPair {
        access_token: pair.access_token.clone(),
        refresh_token: pair.refresh_token.clone(),
        expires_in_seconds: pair.expires_in_seconds,
    }
}

/// The refresh schedule of one authenticated session.
pub struct RefreshScheduler {
    current: TokenPair,
    phase: SchedulerPhase,
}

impl RefreshScheduler {
    /// The pair in use.
    pub closed spec fn spec_current(&self) -> TokenPair {
        self.current
    }

    pub closed spec fn spec_phase(&self) -> SchedulerPhase {
        self.phase
    }

    pub fn phase(&self) -> (r: SchedulerPhase)
        ensures
            r == self.spec_phase(),
    {
        self.phase
    }

    /// The pair in use.
    pub fn current(&self) -> (r: &TokenPair)
        ensures
            *r == self.spec_current(),
    {
        &self.current
    }

    fn due_action(&mut self) -> (r: SchedulerAction)
        ensures
            (final(self).phase, r) == schedule(old(self).current),
            final(self).current == old(self).current,
    {
        let delay = refresh_delay(self.current.expires_in_seconds);
        if delay > 0 {
            self.phase = SchedulerPhase::Waiting;
            SchedulerAction::Sleep(delay)
        } else {
            self.phase = SchedulerPhase::Refreshing;
            SchedulerAction::Refresh(self.current.refresh_token.clone())
        }
    }

    /// Starts the schedule of a session whose first pair is `initial`, and
    /// gives the first action (see `schedule`).
    pub fn start(initial: TokenPair) -> (r: (RefreshScheduler, SchedulerAction))
        ensures
            r.0.spec_current() == initial,
            (r.0.spec_phase(), r.1) == schedule(initial),
    {
        let mut s = RefreshScheduler { current: initial, phase: SchedulerPhase::Waiting };
        let action = s.due_action();
        (s, action)
    }

    fn pending_action(&self) -> (r: SchedulerAction)
        ensures
            r == pending(self.phase, self.current),
    {
        match self.phase {
            SchedulerPhase::Waiting => SchedulerAction::Sleep(
                refresh_delay(self.current.expires_in_seconds),
            ),
            SchedulerPhase::Refreshing => SchedulerAction::Refresh(self.current.refresh_token.clone()),
            SchedulerPhase::Publishing => SchedulerAction::Publish(copy_pair(&self.current)),
            SchedulerPhase::Stopped => SchedulerAction::Finish,
        }
    }

    /// Advances the schedule by one event (see `scheduler_transition`).
    pub fn step(&mut self, event: SchedulerEvent) -> (r: SchedulerAction)
        ensures
            (final(self).spec_phase(), final(self).spec_current(), r) == scheduler_transition(
                old(self).spec_phase(),
                old(self).spec_current(),
                event,
            ),
    {
        if self.phase == SchedulerPhase::Stopped {
            return SchedulerAction::Finish;
        }
        match event {
            SchedulerEvent::Cancel => {
                self.phase = SchedulerPhase::Stopped;
                SchedulerAction::Finish
            },
            SchedulerEvent::Woke => {
                if self.phase == SchedulerPhase::Waiting {
                    self.phase = SchedulerPhase::Refreshing;
                    SchedulerAction::Refresh(self.current.refresh_token.clone())
                } else {
                    self.pending_action()
                }
            },
            SchedulerEvent::Refreshed { status, body, decoded } => {
                if self.phase == SchedulerPhase::Refreshing {
                    let previous = self.current.refresh_token.clone();
                    match parse_response(status, body, decoded, Some(previous)) {
                        Ok(next) => {
                            let published = copy_pair(&next);
                            self.current = next;
                            self.phase = SchedulerPhase::Publishing;
                            SchedulerAction::Publish(published)
                        },
                        Err(e) => {
                            self.phase = SchedulerPhase::Stopped;
                            SchedulerAction::Fatal(e)
                        },
                    }
                } else {
                    self.pending_action()
                }
            },
            SchedulerEvent::RefreshFailed(e) => {
                if self.phase == SchedulerPhase::Refreshing {
                    self.phase = SchedulerPhase::Stopped;
                    SchedulerAction::Fatal(e)
                } else {
                    self.pending_action()
                }
            },
            SchedulerEvent::Delivered => {
                if self.phase == SchedulerPhase::Publishing {
                    self.due_action()
                } else {
                    self.pending_action()
                }
            },
        }
    }
}

/// A pair whose lifetime is no longer than the margin (a lifetime of 0
/// among them) is refreshed at once, with no sleep: when the schedule starts
/// with it, and when it has just been delivered.
pub proof fn lemma_due_pair_refreshes_at_once(pair: TokenPair)
    requires
        pair.expires_in_seconds <= REFRESH_MARGIN_SECONDS,
    ensures
        schedule(pair) == (SchedulerPhase::Refreshing, SchedulerAction::Refresh(pair.refresh_token)),
        scheduler_transition(SchedulerPhase::Publishing, pair, SchedulerEvent::Delivered) == (
            SchedulerPhase::Refreshing,
            pair,
            SchedulerAction::Refresh(pair.refresh_token),
        ),
{
}

/// A successful refresh reply that gives no refresh token keeps the one in
/// use: the new pair carries it, and the next refresh request sends it again.
pub proof fn lemma_refresh_keeps_refresh_token(
    current: TokenPair,
    status: u16,
    body: String,
    access: String,
    expires: i32,
)
    requires
        200 <= status <= 299,
    ensures
        ({
            let decoded = Some(
                TokenResponse { access_token: Some(access), refresh_token: None, expires_in: Some(expires) },
            );
            let (p1, next, a1) = scheduler_transition(
                SchedulerPhase::Refreshing,
                current,
                SchedulerEvent::Refreshed { status, body, decoded },
            );
            let (p2, n2, a2) = scheduler_transition(p1, next, SchedulerEvent::Delivered);
            let a3 = if p2 == SchedulerPhase::Waiting {
                scheduler_transition(p2, n2, SchedulerEvent::Woke).2
            } else {
                a2
            };
            &&& p1 == SchedulerPhase::Publishing
            &&& next == TokenPair {
                access_token: access,
                refresh_token: current.refresh_token,
                expires_in_seconds: expires,
            }
            &&& a1 == SchedulerAction::Publish(next)
            &&& a3 == SchedulerAction::Refresh(current.refresh_token)
        }),
{
}

} // verus!
