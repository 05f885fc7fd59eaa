use fios_stats::auth::{login_outcome, parse_login_challenge, session_from_cookies};
use fios_stats::errors::{AuthError, Field, LoginError, ParseError};
use fios_stats::hash::{compute_hash, password_body};
use fios_stats::login::{login_step, LoginAction, LoginEvent, LoginState};

const CHALLENGE_BODY: &str = "{\
    \"doSetupWizard\": false,\
    \"requirePassword\": true,\
    \"passwordSalt\": \"0123abc\",\
    \"isWireless\": false,\
    \"error\": 0,\
    \"maxUsers\": 8,\
    \"denyState\": 0,\
    \"denyTimeout\": 0,\
    \"meshNetworkEnabledStatus\": true,\
    \"meshUserEnabledConfig\": false\
}";

fn cookie(name: &str, value: &str) -> (String, String) {
    (String::from(name), String::from(value))
}

#[test]
fn parse_challenge_reads_all_fields() {
    let c = parse_login_challenge(CHALLENGE_BODY).unwrap();
    assert_eq!(c.password_salt, "0123abc");
    assert!(!c.do_setup_wizard);
    assert!(c.require_password);
    assert!(!c.is_wireless);
    assert_eq!(c.error, 0);
    assert_eq!(c.max_users, 8);
    assert_eq!(c.deny_state, 0);
    assert_eq!(c.deny_timeout, 0);
    assert!(c.mesh_network_enabled_status);
    assert!(!c.mesh_user_enabled_config);
}

#[test]
fn parse_challenge_rejects_missing_field() {
    let body = "{\"passwordSalt\": \"x\", \"doSetupWizard\": false, \"requirePassword\": true}";
    assert_eq!(
        parse_login_challenge(body).unwrap_err(),
        ParseError::Missing(Field::IsWireless)
    );
}

#[test]
fn parse_challenge_rejects_wrong_type() {
    let body = CHALLENGE_BODY.replace("\"maxUsers\": 8", "\"maxUsers\": \"8\"");
    assert_eq!(
        parse_login_challenge(&body).unwrap_err(),
        ParseError::Invalid(Field::MaxUsers)
    );
}

#[test]
fn parse_challenge_rejects_oversized_number() {
    let body = CHALLENGE_BODY.replace("\"maxUsers\": 8", "\"maxUsers\": 300");
    assert_eq!(
        parse_login_challenge(&body).unwrap_err(),
        ParseError::Invalid(Field::MaxUsers)
    );
}

#[test]
fn parse_challenge_rejects_bad_json() {
    assert_eq!(
        parse_login_challenge("not json").unwrap_err(),
        ParseError::Syntax
    );
}

#[test]
fn login_handshake_succeeds_with_both_cookies() {
    let (state, action) = login_step(
        LoginState::Idle,
        LoginEvent::Start { password: String::from("hunter2") },
    );
    assert!(matches!(action, LoginAction::FetchChallenge));
    assert!(matches!(state, LoginState::AwaitingChallenge { .. }));

    let (state, action) = login_step(
        state,
        LoginEvent::ChallengeBody { body: String::from(CHALLENGE_BODY) },
    );
    assert!(matches!(state, LoginState::AwaitingVerdict));
    let expected_body = password_body(&compute_hash("hunter2", "0123abc"));
    match action {
        LoginAction::PostPassword { body } => assert_eq!(body, expected_body),
        other => panic!("expected a credential POST, got {:?}", other),
    }

    let (state, action) = login_step(
        state,
        LoginEvent::PostResponse {
            status: 200,
            cookies: vec![cookie("XSRF-TOKEN", "tok-1"), cookie("Session", "1234")],
        },
    );
    assert!(matches!(action, LoginAction::Stop));
    match state {
        LoginState::LoggedIn { credential } => {
            assert_eq!(credential.xsrf_token, "tok-1");
            assert_eq!(credential.session_id, 1234);
        }
        other => panic!("expected a logged-in state, got {:?}", other),
    }
}

#[test]
fn login_fails_on_non_success_status() {
    let (state, action) = login_step(
        LoginState::AwaitingVerdict,
        LoginEvent::PostResponse {
            status: 403,
            cookies: vec![cookie("XSRF-TOKEN", "tok-1"), cookie("Session", "1234")],
        },
    );
    assert!(matches!(action, LoginAction::Stop));
    match state {
        LoginState::Failed { error } => {
            assert_eq!(error, LoginError::Auth(AuthError::Status(403)))
        }
        other => panic!("expected a failed state, got {:?}", other),
    }
}

#[test]
fn login_fails_on_malformed_challenge() {
    let (state, _) = login_step(
        LoginState::AwaitingChallenge { password: String::from("pw") },
        LoginEvent::ChallengeBody { body: String::from("{}") },
    );
    match state {
        LoginState::Failed { error } => {
            assert_eq!(error, LoginError::Parse(ParseError::Missing(Field::PasswordSalt)))
        }
        other => panic!("expected a failed state, got {:?}", other),
    }
}

#[test]
fn login_fails_on_out_of_order_event() {
    let (state, action) = login_step(
        LoginState::Idle,
        LoginEvent::ChallengeBody { body: String::from(CHALLENGE_BODY) },
    );
    assert!(matches!(action, LoginAction::Stop));
    match state {
        LoginState::Failed { error } => assert_eq!(error, LoginError::UnexpectedEvent),
        other => panic!("expected a failed state, got {:?}", other),
    }
}

#[test]
fn session_requires_xsrf_cookie() {
    let cookies = vec![cookie("Session", "1234")];
    assert_eq!(
        session_from_cookies(&cookies).unwrap_err(),
        AuthError::MissingXsrfToken
    );
}

#[test]
fn session_requires_session_cookie() {
    let cookies = vec![cookie("XSRF-TOKEN", "tok-1")];
    assert_eq!(
        session_from_cookies(&cookies).unwrap_err(),
        AuthError::MissingSession
    );
}

#[test]
fn session_rejects_non_numeric_cookie() {
    let cookies = vec![cookie("XSRF-TOKEN", "tok-1"), cookie("Session", "12x4")];
    assert_eq!(
        session_from_cookies(&cookies).unwrap_err(),
        AuthError::SessionNotNumeric
    );
}

#[test]
fn session_ignores_unknown_cookies_and_keeps_the_last() {
    let cookies = vec![
        cookie("Session", "1"),
        cookie("Theme", "dark"),
        cookie("XSRF-TOKEN", "old"),
        cookie("XSRF-TOKEN", "new"),
        cookie("Session", "42"),
    ];
    let c = session_from_cookies(&cookies).unwrap();
    assert_eq!(c.xsrf_token, "new");
    assert_eq!(c.session_id, 42);
}

#[test]
fn login_outcome_checks_status_before_cookies() {
    let cookies = vec![cookie("Session", "12x4")];
    assert_eq!(login_outcome(500, &cookies).unwrap_err(), AuthError::Status(500));
    assert_eq!(
        login_outcome(204, &cookies).unwrap_err(),
        AuthError::MissingXsrfToken
    );
}
