use orca::ApiError;
use orca::App;
use orca::json::JsonValue;
use orca::request::{HttpEvent, run_request, run_auth_request};
use orca::session::{AppKind, Credentials, GrantOutcome, Session, SessionState, TokenDecision};

fn event(status: u16, body: &str) -> HttpEvent {
    HttpEvent::Response { status, body: body.to_string() }
}

fn creds(username: &str, password: &str) -> Credentials {
    Credentials {
        username: username.to_string(),
        password: password.to_string(),
        app_kind: AppKind::Script,
    }
}

#[test]
fn user_agent_line() {
    let app = App::new("testapp", "0.1", "tester").unwrap();
    assert_eq!(app.agent, "testapp/0.1 by tester");
}

#[test]
fn fresh_token_is_live() {
    let mut app = App::new("testapp", "0.1", "tester").unwrap();
    let r = app.authorize(
        "alice".to_string(),
        "hunter2".to_string(),
        AppKind::Script,
        GrantOutcome::Granted { token: "tok1".to_string(), lifetime: 3600 },
        1_000,
    );
    assert_eq!(r, Ok(()));
    let d = app.session.token_for_request(1_000);
    assert_eq!(d, TokenDecision::Ready("tok1".to_string()));
}

#[test]
fn expired_token_single_reauth_then_failed() {
    let mut session = Session::new();
    session
        .authorize(
            creds("alice", "hunter2"),
            GrantOutcome::Granted { token: "t0".to_string(), lifetime: 10 },
            100,
        )
        .unwrap();
    // expiry is 110, so at 200 the token is expired
    let d = session.token_for_request(200);
    assert_eq!(d, TokenDecision::NeedReauth);
    let r = session.complete_reauth(GrantOutcome::Denied, 200);
    assert_eq!(r, Err(ApiError::Forbidden));
    // a failed session keeps reporting Forbidden without another attempt
    assert_eq!(session.token_for_request(300), TokenDecision::Denied(ApiError::Forbidden));
    assert_eq!(session.token_for_request(400), TokenDecision::Denied(ApiError::Forbidden));
}

#[test]
fn expired_token_reauth_succeeds() {
    let mut session = Session::new();
    session
        .authorize(
            creds("alice", "hunter2"),
            GrantOutcome::Granted { token: "t0".to_string(), lifetime: 10 },
            100,
        )
        .unwrap();
    assert_eq!(session.token_for_request(200), TokenDecision::NeedReauth);
    let r = session.complete_reauth(
        GrantOutcome::Granted { token: "t1".to_string(), lifetime: 50 },
        200,
    );
    assert_eq!(r, Ok("t1".to_string()));
    assert_eq!(session.token_for_request(210), TokenDecision::Ready("t1".to_string()));
}

#[test]
fn reauth_keeps_original_credentials() {
    let mut session = Session::new();
    session
        .authorize(
            creds("alice", "hunter2"),
            GrantOutcome::Granted { token: "t0".to_string(), lifetime: 10 },
            100,
        )
        .unwrap();
    session.token_for_request(200);
    session.complete_reauth(GrantOutcome::Denied, 200).unwrap_err();
    assert_eq!(session.creds, Some(creds("alice", "hunter2")));
}

#[test]
fn anonymous_session_is_refused() {
    let mut session = Session::new();
    assert_eq!(session.token_for_request(0), TokenDecision::Denied(ApiError::Forbidden));
}

#[test]
fn rejected_credentials_fail_the_session() {
    let mut app = App::new("testapp", "0.1", "tester").unwrap();
    let r = app.authorize(
        "alice".to_string(),
        "wrong".to_string(),
        AppKind::Script,
        GrantOutcome::Denied,
        1_000,
    );
    assert_eq!(r, Err(ApiError::Forbidden));
    assert_eq!(app.session.state, SessionState::Failed);
    assert_eq!(app.session.token_for_request(1_000), TokenDecision::Denied(ApiError::Forbidden));
}

#[test]
fn expiry_saturates_at_the_largest_instant() {
    let mut session = Session::new();
    session
        .authorize(
            creds("alice", "hunter2"),
            GrantOutcome::Granted { token: "t0".to_string(), lifetime: u64::MAX },
            5,
        )
        .unwrap();
    assert_eq!(
        session.state,
        SessionState::Authenticated { token: "t0".to_string(), expires_at: u64::MAX },
    );
}

#[test]
fn status_mapping_unauthenticated() {
    assert_eq!(run_request(&event(400, "{}")), Err(ApiError::BadRequest));
    assert_eq!(run_request(&event(401, "{}")), Err(ApiError::Forbidden));
    assert_eq!(run_request(&event(403, "{}")), Err(ApiError::Forbidden));
    assert_eq!(run_request(&event(404, "{}")), Err(ApiError::NotFound));
    assert_eq!(run_request(&event(500, "{}")), Err(ApiError::BadResponse));
    assert_eq!(run_request(&event(302, "{}")), Err(ApiError::BadResponse));
    assert_eq!(run_request(&event(200, "null")), Ok(JsonValue::Null));
    assert_eq!(run_request(&event(200, "not json")), Err(ApiError::BadResponse));
    assert_eq!(run_request(&HttpEvent::TransportFailure), Err(ApiError::Transient));
}

#[test]
fn status_mapping_authenticated() {
    let ready = TokenDecision::Ready("tok".to_string());
    assert_eq!(run_auth_request(&ready, &event(400, "{}")), Err(ApiError::BadRequest));
    assert_eq!(run_auth_request(&ready, &event(401, "{}")), Err(ApiError::Forbidden));
    assert_eq!(run_auth_request(&ready, &event(403, "{}")), Err(ApiError::Forbidden));
    assert_eq!(run_auth_request(&ready, &event(404, "{}")), Err(ApiError::NotFound));
    assert_eq!(run_auth_request(&ready, &event(500, "{}")), Err(ApiError::BadResponse));
    assert_eq!(run_auth_request(&ready, &event(200, "true")), Ok(JsonValue::Bool(true)));
    assert_eq!(
        run_auth_request(&ready, &HttpEvent::TransportFailure),
        Err(ApiError::Transient),
    );
}

#[test]
fn denied_session_error_returned_without_sending() {
    // whatever the transport would have answered, the session's error wins
    let denied = TokenDecision::Denied(ApiError::Forbidden);
    assert_eq!(run_auth_request(&denied, &event(200, "{}")), Err(ApiError::Forbidden));
    let pending = TokenDecision::NeedReauth;
    assert_eq!(run_auth_request(&pending, &event(200, "{}")), Err(ApiError::Forbidden));
}

#[test]
fn parsed_body_is_structured() {
    let r = run_request(&event(200, "{\"a\": 1, \"b\": [true, null, \"x\"]}"));
    let expected = JsonValue::Obj(vec![
        ("a".to_string(), JsonValue::Int(1)),
        (
            "b".to_string(),
            JsonValue::Arr(vec![
                JsonValue::Bool(true),
                JsonValue::Null,
                JsonValue::Str("x".to_string()),
            ]),
        ),
    ]);
    assert_eq!(r, Ok(expected));
}
