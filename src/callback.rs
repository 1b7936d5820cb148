//! The loopback callback endpoint: what one request line to
//! `/authorization/callback` resolves to, the one-shot server that answers
//! such requests until the first terminal result, and the HTTP replies.
use vstd::prelude::*;
use crate::query::{query_lookup, query_value, same_text};
use crate::text::{decimal, decimal_text, has_prefix, starts_with, take_until, text_until};

verus! {

/// What the callback endpoint hands to the login flow.
#[derive(Debug, Clone)]
pub enum HttpMessage {
    /// The authorization code of an accepted callback.
    AuthCode(String),
    /// A provider-reported error, a rejected callback or a local failure.
    Error(String),
    /// The server was stopped before a callback resolved.
    Cancelled,
}

/// The mathematical value of an `HttpMessage`.
pub enum MessageView {
    AuthCode(Seq<char>),
    Error(Seq<char>),
    Cancelled,
}

impl View for HttpMessage {
    type V = MessageView;

    open spec fn view(&self) -> MessageView {
        match self {
            HttpMessage::AuthCode(c) => MessageView::AuthCode(c@),
            HttpMessage::Error(e) => MessageView::Error(e@),
            HttpMessage::Cancelled => MessageView::Cancelled,
        }
    }
}

/// The view of an optional message.
pub open spec fn opt_message_view(m: Option<HttpMessage>) -> Option<MessageView> {
    match m {
        Some(m) => Some(m@),
        None => None,
    }
}

/// How one request line is answered: the HTTP status of the reply, the
/// message it yields, and whether that message ends the login attempt.
#[derive(Debug)]
pub struct CallbackOutcome {
    pub status: u16,
    pub message: HttpMessage,
    pub terminal: bool,
}

pub struct OutcomeView {
    pub status: u16,
    pub message: MessageView,
    pub terminal: bool,
}

impl View for CallbackOutcome {
    type V = OutcomeView;

    open spec fn view(&self) -> OutcomeView {
        OutcomeView { status: self.status, message: self.message@, terminal: self.terminal }
    }
}

/// The start of every request line that the endpoint accepts.
pub const CALLBACK_PREFIX: &'static str = "GET /authorization/callback?";

/// The query of a request line that starts with `CALLBACK_PREFIX`: the text
/// after the prefix, up to the space before the protocol version.
pub open spec fn callback_query(line: Seq<char>) -> Seq<char> {
    take_until(line.subrange(CALLBACK_PREFIX@.len() as int, line.len() as int), ' ')
}

/// What a request line resolves to when the login attempt expects `expected`
/// as its `state`.
/// - Another method or path: 400, "endpoint not recognized", not terminal.
/// - An `error` parameter: 400 with its value, terminal, whatever else the query holds.
/// - A `code` parameter whose `state` is exactly `expected`: 200 with the code, terminal.
/// - A `code` parameter with another or no `state`: 403, "state mismatch", terminal.
/// - Neither `code` nor `error`: 400, "missing code or error", not terminal.
pub open spec fn callback_outcome(line: Seq<char>, expected: Seq<char>) -> OutcomeView {
    if !starts_with(line, CALLBACK_PREFIX@) {
        OutcomeView {
            status: 400,
            message: MessageView::Error("endpoint not recognized"@),
            terminal: false,
        }
    } else {
        let q = callback_query(line);
        match query_lookup(q, "error"@) {
            Some(e) => OutcomeView { status: 400, message: MessageView::Error(e), terminal: true },
            None => match query_lookup(q, "code"@) {
                Some(code) => if query_lookup(q, "state"@) == Some(expected) {
                    OutcomeView { status: 200, message: MessageView::AuthCode(code), terminal: true }
                } else {
                    OutcomeView {
                        status: 403,
                        message: MessageView::Error("state mismatch"@),
                        terminal: true,
                    }
                },
                None => OutcomeView {
                    status: 400,
                    message: MessageView::Error("missing code or error"@),
                    terminal: false,
                },
            },
        }
    }
}

/// Resolves one request line against the expected `state` (see `callback_outcome`).
pub fn parse_authorization_http(request: &str, state: &str) -> (r: CallbackOutcome)
    ensures
        r@ == callback_outcome(request@, state@),
{
    if !has_prefix(request, CALLBACK_PREFIX) {
        return CallbackOutcome {
            status: 400,
            message: HttpMessage::Error(String::from_str("endpoint not recognized")),
            terminal: false,
        };
    }
    let start = CALLBACK_PREFIX.unicode_len();
    let rest = request.substring_char(start, request.unicode_len());
    let query = text_until(rest, ' ');
    if let Some(e) = query_value(query, "error") {
        return CallbackOutcome { status: 400, message: HttpMessage::Error(e), terminal: true };
    }
    match query_value(query, "code") {
        Some(code) => {
            let matches = match query_value(query, "state") {
                Some(received) => same_text(received.as_str(), state),
                None => false,
            };
            if matches {
                CallbackOutcome { status: 200, message: HttpMessage::AuthCode(code), terminal: true }
            } else {
                CallbackOutcome {
                    status: 403,
                    message: HttpMessage::Error(String::from_str("state mismatch")),
                    terminal: true,
                }
            }
        },
        None => CallbackOutcome {
            status: 400,
            message: HttpMessage::Error(String::from_str("missing code or error")),
            terminal: false,
        },
    }
}

/// An authorization code comes out of a callback only where its `state` is
/// exactly the expected one: a `state` that differs in any character (or is
/// missing) beside a `code`, with no `error`, gives a terminal 403 "state mismatch".
pub proof fn lemma_state_must_match(line: Seq<char>, expected: Seq<char>)
    ensures
        callback_outcome(line, expected).message is AuthCode ==> starts_with(line, CALLBACK_PREFIX@)
            && query_lookup(callback_query(line), "state"@) == Some(expected),
        ({
            let q = callback_query(line);
            starts_with(line, CALLBACK_PREFIX@) && query_lookup(q, "error"@) is None
                && query_lookup(q, "code"@) is Some && query_lookup(q, "state"@) != Some(expected)
        }) ==> callback_outcome(line, expected) == (OutcomeView {
            status: 403,
            message: MessageView::Error("state mismatch"@),
            terminal: true,
        }),
{
}

/// A callback that carries an `error` resolves to that error, with a 400 and
/// as a terminal result, whether or not it also carries a `code`.
pub proof fn lemma_error_takes_precedence(line: Seq<char>, expected: Seq<char>)
    ensures
        starts_with(line, CALLBACK_PREFIX@) && query_lookup(callback_query(line), "error"@) is Some
            ==> callback_outcome(line, expected) == (OutcomeView {
            status: 400,
            message: MessageView::Error(query_lookup(callback_query(line), "error"@)->0),
            terminal: true,
        }),
{
}

/// Where the callback server stands.
#[derive(Debug, Clone, Copy, PartialEq, Eq, Structural)]
pub enum ServerPhase {
    /// Waiting for the browser's redirect.
    Listening,
    /// A terminal result has been handed out.
    Resolved,
    /// Stopped by its owner before a result.
    Cancelled,
}

/// What happens to the callback server.
#[derive(Debug)]
pub enum ServerEvent {
    /// The fixed port could not be bound.
    BindFailed(String),
    /// Accepting a connection failed.
    AcceptFailed(String),
    /// A connection was accepted but its request line could not be read.
    ReadFailed(String),
    /// The request line of an accepted connection.
    Request(String),
    /// The owner asked the server to stop.
    Cancel,
}

/// What the server does in answer to one event: the status of the HTTP reply
/// to send on the connection, if any; the message to hand to the login flow,
/// if any; and whether to stop listening.
#[derive(Debug)]
pub struct ServerStep {
    pub reply: Option<u16>,
    pub emit: Option<HttpMessage>,
    pub stop: bool,
}

pub struct StepView {
    pub reply: Option<u16>,
    pub emit: Option<MessageView>,
    pub stop: bool,
}

impl View for ServerStep {
    type V = StepView;

    open spec fn view(&self) -> StepView {
        StepView { reply: self.reply, emit: opt_message_view(self.emit), stop: self.stop }
    }
}

/// A terminal failure: the message `prefix` + `detail`, no reply, and stop.
pub open spec fn failure_step(prefix: Seq<char>, detail: Seq<char>) -> StepView {
    StepView { reply: None, emit: Some(MessageView::Error(prefix + detail)), stop: true }
}

/// The server's transition: the phase after `event` and what it does.
/// Once it has resolved or been cancelled it hands out nothing more.
pub open spec fn server_transition(phase: ServerPhase, expected: Seq<char>, event: ServerEvent) -> (
    ServerPhase,
    StepView,
) {
    if phase != ServerPhase::Listening {
        (phase, StepView { reply: None, emit: None, stop: true })
    } else {
        match event {
            ServerEvent::BindFailed(d) => (
                ServerPhase::Resolved,
                failure_step("Cannot setup a local connection: "@, d@),
            ),
            ServerEvent::AcceptFailed(d) => (
                ServerPhase::Resolved,
                failure_step("Error getting a connection stream: "@, d@),
            ),
            ServerEvent::ReadFailed(d) => (
                ServerPhase::Resolved,
                failure_step("Error reading the callback request: "@, d@),
            ),
            ServerEvent::Request(line) => {
                let o = callback_outcome(line@, expected);
                if o.terminal {
                    (
                        ServerPhase::Resolved,
                        StepView { reply: Some(o.status), emit: Some(o.message), stop: true },
                    )
                } else {
                    (ServerPhase::Listening, StepView { reply: Some(o.status), emit: None, stop: false })
                }
            },
            ServerEvent::Cancel => (
                ServerPhase::Cancelled,
                StepView { reply: None, emit: Some(MessageView::Cancelled), stop: true },
            ),
        }
    }
}

/// The one-shot loopback server of one login attempt.
pub struct CallbackServer {
    expected_state: String,
    phase: ServerPhase,
}

impl CallbackServer {
    /// The `state` that this server's callback must carry.
    pub closed spec fn expected(&self) -> Seq<char> {
        self.expected_state@
    }

    pub closed spec fn spec_phase(&self) -> ServerPhase {
        self.phase
    }

    /// A server that listens for the callback of a login attempt whose
    /// `state` is `expected_state`.
    pub fn new(expected_state: String) -> (r: Self)
        ensures
            r.expected() == expected_state@,
            r.spec_phase() == ServerPhase::Listening,
    {
        CallbackServer { expected_state, phase: ServerPhase::Listening }
    }

    pub fn phase(&self) -> (r: ServerPhase)
        ensures
            r == self.spec_phase(),
    {
        self.phase
    }

    fn prefixed_error(prefix: &str, detail: String) -> (r: HttpMessage)
        ensures
            r@ == MessageView::Error(prefix@ + detail@),
    {
        let mut text = String::from_str(prefix);
        text.append(detail.as_str());
        HttpMessage::Error(text)
    }

    /// Advances the server by one event (see `server_transition`). At most one
    /// message is ever handed out: after one, the server no longer listens.
    pub fn step(&mut self, event: ServerEvent) -> (r: ServerStep)
        ensures
            (final(self).spec_phase(), r@) == server_transition(
                old(self).spec_phase(),
                old(self).expected(),
                event,
            ),
            final(self).expected() == old(self).expected(),
            r.emit is Some ==> final(self).spec_phase() != ServerPhase::Listening,
            old(self).spec_phase() != ServerPhase::Listening ==> r.emit is None,
    {
        if self.phase != ServerPhase::Listening {
            return ServerStep { reply: None, emit: None, stop: true };
        }
        match event {
            ServerEvent::BindFailed(d) => {
                self.phase = ServerPhase::Resolved;
                let m = Self::prefixed_error("Cannot setup a local connection: ", d);
                ServerStep { reply: None, emit: Some(m), stop: true }
            },
            ServerEvent::AcceptFailed(d) => {
                self.phase = ServerPhase::Resolved;
                let m = Self::prefixed_error("Error getting a connection stream: ", d);
                ServerStep { reply: None, emit: Some(m), stop: true }
            },
            ServerEvent::ReadFailed(d) => {
                self.phase = ServerPhase::Resolved;
                let m = Self::prefixed_error("Error reading the callback request: ", d);
                ServerStep { reply: None, emit: Some(m), stop: true }
            },
            ServerEvent::Request(line) => {
                let o = parse_authorization_http(line.as_str(), self.expected_state.as_str());
                if o.terminal {
                    self.phase = ServerPhase::Resolved;
                    ServerStep { reply: Some(o.status), emit: Some(o.message), stop: true }
                } else {
                    ServerStep { reply: Some(o.status), emit: None, stop: false }
                }
            },
            ServerEvent::Cancel => {
                self.phase = ServerPhase::Cancelled;
                ServerStep { reply: None, emit: Some(HttpMessage::Cancelled), stop: true }
            },
        }
    }
}

/// The page shown in the browser once the login has been accepted.
pub const SUCCESS_PAGE: &'static str = "<!DOCTYPE html><html><head><meta charset=\"utf-8\"><title>Oxify</title></head><body><h1>Login complete</h1><p>You can close this tab and return to the application.</p></body></html>";

/// The page shown for a callback that was not accepted.
pub const REJECTED_PAGE: &'static str = "<!DOCTYPE html><html><head><meta charset=\"utf-8\"><title>Oxify</title></head><body><h1>Login not completed</h1><p>Return to the application and try again.</p></body></html>";

/// The status line's code and reason for `status`: 200, 403, and 400 for
/// anything else.
pub open spec fn status_text(status: u16) -> Seq<char> {
    if status == 200 {
        "200 OK"@
    } else if status == 403 {
        "403 Forbidden"@
    } else {
        "400 Bad Request"@
    }
}

/// The page sent with `status`.
pub open spec fn page_for(status: u16) -> &'static str {
    if status == 200 {
        SUCCESS_PAGE
    } else {
        REJECTED_PAGE
    }
}

/// The full HTTP/1.1 reply with `status`, its page, and the page's length in bytes.
pub open spec fn response_text(status: u16) -> Seq<char> {
    "HTTP/1.1 "@ + status_text(status) + "\r\nContent-Type: text/html; charset=utf-8\r\nContent-Length: "@
        + decimal(page_for(status).len() as nat) + "\r\nConnection: close\r\n\r\n"@
        + page_for(status)@
}

/// The HTTP reply that the callback server sends with `status`.
pub fn http_response(status: u16) -> (r: String)
    ensures
        r@ == response_text(status),
{
    let reason = if status == 200 {
        "200 OK"
    } else if status == 403 {
        "403 Forbidden"
    } else {
        "400 Bad Request"
    };
    let page = if status == 200 {
        SUCCESS_PAGE
    } else {
        REJECTED_PAGE
    };
    let mut r = String::from_str("HTTP/1.1 ");
    r.append(reason);
    r.append("\r\nContent-Type: text/html; charset=utf-8\r\nContent-Length: ");
    let length = decimal_text(page.len());
    r.append(length.as_str());
    r.append("\r\nConnection: close\r\n\r\n");
    r.append(page);
    r
}

} // verus!
