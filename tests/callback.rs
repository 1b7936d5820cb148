use oxify::callback::{
    http_response, parse_authorization_http, CallbackServer, HttpMessage, ServerEvent,
    ServerPhase, REJECTED_PAGE, SUCCESS_PAGE,
};

fn request(line: &str) -> ServerEvent {
    ServerEvent::Request(line.to_string())
}

#[test]
fn code_with_matching_state_is_accepted() {
    let o = parse_authorization_http("GET /authorization/callback?code=abc123&state=XYZ HTTP/1.1", "XYZ");
    assert_eq!(o.status, 200);
    assert!(o.terminal);
    assert!(matches!(o.message, HttpMessage::AuthCode(ref c) if c == "abc123"));
}

#[test]
fn provider_error_is_terminal_with_400() {
    let o = parse_authorization_http(
        "GET /authorization/callback?error=access_denied&state=XYZ HTTP/1.1",
        "XYZ",
    );
    assert_eq!(o.status, 400);
    assert!(o.terminal);
    assert!(matches!(o.message, HttpMessage::Error(ref e) if e == "access_denied"));
}

#[test]
fn other_path_is_answered_and_not_terminal() {
    let o = parse_authorization_http("GET /favicon.ico HTTP/1.1", "XYZ");
    assert_eq!(o.status, 400);
    assert!(!o.terminal);
    assert!(matches!(o.message, HttpMessage::Error(ref e) if e == "endpoint not recognized"));
}

#[test]
fn other_method_is_not_recognized() {
    let o = parse_authorization_http("POST /authorization/callback?code=a&state=XYZ HTTP/1.1", "XYZ");
    assert_eq!(o.status, 400);
    assert!(!o.terminal);
}

#[test]
fn state_differing_in_one_character_is_a_mismatch() {
    for state in ["XYz", "XY", "XYZZ", "AYZ", ""] {
        let line = format!("GET /authorization/callback?code=abc123&state={} HTTP/1.1", state);
        let o = parse_authorization_http(&line, "XYZ");
        assert_eq!(o.status, 403, "state {state}");
        assert!(o.terminal);
        assert!(matches!(o.message, HttpMessage::Error(ref e) if e == "state mismatch"));
    }
}

#[test]
fn missing_state_is_a_mismatch() {
    let o = parse_authorization_http("GET /authorization/callback?code=abc123 HTTP/1.1", "XYZ");
    assert_eq!(o.status, 403);
    assert!(matches!(o.message, HttpMessage::Error(ref e) if e == "state mismatch"));
}

#[test]
fn error_takes_precedence_over_code() {
    let o = parse_authorization_http(
        "GET /authorization/callback?code=abc123&error=access_denied&state=XYZ HTTP/1.1",
        "XYZ",
    );
    assert_eq!(o.status, 400);
    assert!(o.terminal);
    assert!(matches!(o.message, HttpMessage::Error(ref e) if e == "access_denied"));
}

#[test]
fn last_occurrence_of_a_key_wins() {
    let o = parse_authorization_http(
        "GET /authorization/callback?code=first&state=XYZ&code=second HTTP/1.1",
        "XYZ",
    );
    assert!(matches!(o.message, HttpMessage::AuthCode(ref c) if c == "second"));
}

#[test]
fn unknown_keys_and_bare_words_are_ignored() {
    let o = parse_authorization_http(
        "GET /authorization/callback?foo=bar&flag&state=XYZ&code=abc HTTP/1.1",
        "XYZ",
    );
    assert_eq!(o.status, 200);
    assert!(matches!(o.message, HttpMessage::AuthCode(ref c) if c == "abc"));
}

#[test]
fn neither_code_nor_error_keeps_listening() {
    let o = parse_authorization_http("GET /authorization/callback?state=XYZ HTTP/1.1", "XYZ");
    assert_eq!(o.status, 400);
    assert!(!o.terminal);
    assert!(matches!(o.message, HttpMessage::Error(ref e) if e == "missing code or error"));
}

#[test]
fn line_without_protocol_version() {
    let o = parse_authorization_http("GET /authorization/callback?code=abc&state=XYZ", "XYZ");
    assert_eq!(o.status, 200);
    assert!(matches!(o.message, HttpMessage::AuthCode(ref c) if c == "abc"));
}

#[test]
fn server_answers_stray_request_and_keeps_listening() {
    let mut server = CallbackServer::new("XYZ".to_string());
    let step = server.step(request("GET /favicon.ico HTTP/1.1"));
    assert_eq!(step.reply, Some(400));
    assert!(step.emit.is_none());
    assert!(!step.stop);
    assert_eq!(server.phase(), ServerPhase::Listening);

    let step = server.step(request("GET /authorization/callback?code=abc123&state=XYZ HTTP/1.1"));
    assert_eq!(step.reply, Some(200));
    assert!(matches!(step.emit, Some(HttpMessage::AuthCode(ref c)) if c == "abc123"));
    assert!(step.stop);
    assert_eq!(server.phase(), ServerPhase::Resolved);
}

#[test]
fn server_emits_at_most_one_result() {
    let mut server = CallbackServer::new("XYZ".to_string());
    let step = server.step(request("GET /authorization/callback?code=a&state=WRONG HTTP/1.1"));
    assert_eq!(step.reply, Some(403));
    assert!(matches!(step.emit, Some(HttpMessage::Error(ref e)) if e == "state mismatch"));
    let again = server.step(request("GET /authorization/callback?code=a&state=XYZ HTTP/1.1"));
    assert!(again.emit.is_none());
    assert!(again.reply.is_none());
    assert!(again.stop);
    let cancel = server.step(ServerEvent::Cancel);
    assert!(cancel.emit.is_none());
    assert_eq!(server.phase(), ServerPhase::Resolved);
}

#[test]
fn cancel_while_listening_yields_cancelled() {
    let mut server = CallbackServer::new("XYZ".to_string());
    let step = server.step(ServerEvent::Cancel);
    assert!(matches!(step.emit, Some(HttpMessage::Cancelled)));
    assert!(step.stop);
    assert!(step.reply.is_none());
    assert_eq!(server.phase(), ServerPhase::Cancelled);
    let later = server.step(request("GET /authorization/callback?code=a&state=XYZ HTTP/1.1"));
    assert!(later.emit.is_none());
}

#[test]
fn bind_failure_is_reported_and_stops() {
    let mut server = CallbackServer::new("XYZ".to_string());
    let step = server.step(ServerEvent::BindFailed("address in use".to_string()));
    assert!(matches!(step.emit, Some(HttpMessage::Error(ref e))
        if e == "Cannot setup a local connection: address in use"));
    assert!(step.stop);
}

#[test]
fn read_failure_is_terminal() {
    let mut server = CallbackServer::new("XYZ".to_string());
    let step = server.step(ServerEvent::ReadFailed("empty request".to_string()));
    assert!(matches!(step.emit, Some(HttpMessage::Error(ref e))
        if e == "Error reading the callback request: empty request"));
    assert!(step.stop);
    assert_eq!(server.phase(), ServerPhase::Resolved);
}

#[test]
fn accept_failure_is_terminal() {
    let mut server = CallbackServer::new("XYZ".to_string());
    let step = server.step(ServerEvent::AcceptFailed("reset".to_string()));
    assert!(matches!(step.emit, Some(HttpMessage::Error(ref e))
        if e == "Error getting a connection stream: reset"));
}

#[test]
fn success_response_has_status_and_length() {
    let r = http_response(200);
    let expected = format!(
        "HTTP/1.1 200 OK\r\nContent-Type: text/html; charset=utf-8\r\nContent-Length: {}\r\nConnection: close\r\n\r\n{}",
        SUCCESS_PAGE.len(),
        SUCCESS_PAGE
    );
    assert_eq!(r, expected);
}

#[test]
fn rejection_responses() {
    assert!(http_response(403).starts_with("HTTP/1.1 403 Forbidden\r\n"));
    assert!(http_response(400).starts_with("HTTP/1.1 400 Bad Request\r\n"));
    assert!(http_response(400).ends_with(REJECTED_PAGE));
    let length = format!("Content-Length: {}\r\n", REJECTED_PAGE.len());
    assert!(http_response(403).contains(&length));
}
