use paperclip_bridge::dto::CliAuthChallenge;
use paperclip_bridge::error::{invalid, AppError};
use paperclip_bridge::keychain::{read_keychain_token, write_keychain_token};
use paperclip_bridge::login::{
    accept_challenge, approval_link_accepts, paperclip_login_cancel, paperclip_login_start, poll_interval, CancelAction,
    CancelEvent, CancelState,
};

const BASE: &str = "https://paperclip.example";
const COMPANY: &str = "550e8400-e29b-41d4-a716-446655440000";

fn challenge() -> CliAuthChallenge {
    CliAuthChallenge {
        id: "abc-123".to_string(),
        token: "tok-1".to_string(),
        board_api_token: "pcp_board_zzz".to_string(),
        approval_path: "/cli-auth/abc-123?token=tok-1".to_string(),
        expires_at: "2026-09-15T12:00:00Z".to_string(),
        suggested_poll_interval_ms: Some(2000),
    }
}

fn invalid_message<T>(r: Result<T, AppError>) -> String {
    match r {
        Err(AppError::InvalidArgument { message }) => message,
        _ => panic!("expected an invalid-argument error"),
    }
}

const BAD_CHALLENGE: &str = "Paperclip returned an invalid sign-in challenge.";
const BAD_LINK: &str = "Paperclip returned an invalid approval link.";

#[test]
fn invalid_builds_an_invalid_argument_error() {
    assert!(matches!(invalid("nope"), AppError::InvalidArgument { message } if message == "nope"));
}

#[test]
fn login_start_normalises_its_inputs() {
    let (base, company) =
        paperclip_login_start(" https://paperclip.example/ ", "550E8400-E29B-41D4-A716-446655440000", false).unwrap();
    assert_eq!(base, BASE);
    assert_eq!(company, COMPANY);
}

#[test]
fn login_start_refuses_a_second_sign_in() {
    assert_eq!(
        invalid_message(paperclip_login_start(BASE, COMPANY, true)),
        "A Paperclip sign-in is already in progress."
    );
}

#[test]
fn login_start_checks_the_server_first() {
    assert_eq!(
        invalid_message(paperclip_login_start("ftp://paperclip.example", "nope", true)),
        "Paperclip must use an HTTPS origin without credentials, path, query, or fragment."
    );
    assert_eq!(
        invalid_message(paperclip_login_start(BASE, "nope", true)),
        "Enter the Paperclip company UUID."
    );
}

#[test]
fn accepted_challenge_keeps_its_secrets_pending() {
    let (pending, start) = accept_challenge(BASE.to_string(), COMPANY.to_string(), challenge()).unwrap();
    assert_eq!(pending.api_base_url, BASE);
    assert_eq!(pending.company_id, COMPANY);
    assert_eq!(pending.challenge_id, "abc-123");
    assert_eq!(pending.challenge_token, "tok-1");
    assert_eq!(pending.board_api_token, "pcp_board_zzz");
    assert_eq!(start.approval_url, "https://paperclip.example/cli-auth/abc-123?token=tok-1");
    assert_eq!(start.expires_at, "2026-09-15T12:00:00Z");
    assert_eq!(start.poll_interval_ms, 2000);
}

#[test]
fn approval_token_may_stand_among_other_query_pairs() {
    let mut c = challenge();
    c.approval_path = "/cli-auth/abc-123?next=%2Fboard&token=tok-1".to_string();
    assert!(accept_challenge(BASE.to_string(), COMPANY.to_string(), c).is_ok());
}

#[test]
fn challenge_id_must_be_short_and_plain() {
    let mut c = challenge();
    c.id = String::new();
    assert_eq!(invalid_message(accept_challenge(BASE.into(), COMPANY.into(), c)), BAD_CHALLENGE);
    let mut c = challenge();
    c.id = "abc_123".to_string();
    assert_eq!(invalid_message(accept_challenge(BASE.into(), COMPANY.into(), c)), BAD_CHALLENGE);
    let mut c = challenge();
    c.id = "a".repeat(129);
    assert_eq!(invalid_message(accept_challenge(BASE.into(), COMPANY.into(), c)), BAD_CHALLENGE);
    let mut c = challenge();
    c.id = "a".repeat(128);
    c.approval_path = format!("/cli-auth/{}?token=tok-1", c.id);
    assert!(accept_challenge(BASE.into(), COMPANY.into(), c).is_ok());
}

#[test]
fn board_token_must_carry_its_prefix() {
    let mut c = challenge();
    c.board_api_token = "pcp_agent_zzz".to_string();
    assert_eq!(invalid_message(accept_challenge(BASE.into(), COMPANY.into(), c)), BAD_CHALLENGE);
}

#[test]
fn challenge_token_is_bounded_in_bytes() {
    let mut c = challenge();
    c.token = String::new();
    assert_eq!(invalid_message(accept_challenge(BASE.into(), COMPANY.into(), c)), BAD_CHALLENGE);
    let mut c = challenge();
    c.token = "\u{e9}".repeat(257);
    assert_eq!(invalid_message(accept_challenge(BASE.into(), COMPANY.into(), c)), BAD_CHALLENGE);
}

#[test]
fn approval_link_must_name_the_challenge() {
    let mut c = challenge();
    c.approval_path = "/cli-auth/other?token=tok-1".to_string();
    assert_eq!(invalid_message(accept_challenge(BASE.into(), COMPANY.into(), c)), BAD_LINK);
    let mut c = challenge();
    c.approval_path = "/cli-auth/abc-123?token=tok-2".to_string();
    assert_eq!(invalid_message(accept_challenge(BASE.into(), COMPANY.into(), c)), BAD_LINK);
    let mut c = challenge();
    c.approval_path = "/cli-auth/abc-123".to_string();
    assert_eq!(invalid_message(accept_challenge(BASE.into(), COMPANY.into(), c)), BAD_LINK);
}

#[test]
fn poll_interval_is_held_between_half_a_second_and_five_seconds() {
    assert_eq!(poll_interval(None), 1000);
    assert_eq!(poll_interval(Some(100)), 500);
    assert_eq!(poll_interval(Some(500)), 500);
    assert_eq!(poll_interval(Some(5000)), 5000);
    assert_eq!(poll_interval(Some(60000)), 5000);
    let mut c = challenge();
    c.suggested_poll_interval_ms = None;
    let (_, start) = accept_challenge(BASE.into(), COMPANY.into(), c).unwrap();
    assert_eq!(start.poll_interval_ms, 1000);
}

#[test]
fn cancel_request_names_the_challenge_and_drops_it_once_accepted() {
    let (pending, _) = accept_challenge(BASE.into(), COMPANY.into(), challenge()).unwrap();
    let (s, a) = paperclip_login_cancel(
        CancelState::Start,
        CancelEvent::Began { network: Ok(()), pending: Some(pending) },
    );
    assert!(matches!(a, CancelAction::PrepareClient));
    let (s, a) = paperclip_login_cancel(s, CancelEvent::ClientPrepared(Ok(())));
    match a {
        CancelAction::SendCancel { url, token } => {
            assert_eq!(url, "https://paperclip.example/api/cli-auth/challenges/abc-123/cancel");
            assert_eq!(token, "tok-1");
        }
        _ => panic!("expected the cancellation to be sent"),
    }
    let (s, a) = paperclip_login_cancel(s, CancelEvent::CancelSent(Ok(())));
    assert!(matches!(s, CancelState::Finished));
    assert!(matches!(a, CancelAction::Finish { clear_pending: true, result: Ok(()) }));
}

#[test]
fn cancel_without_a_sign_in_succeeds_with_nothing_sent() {
    let (s, a) = paperclip_login_cancel(CancelState::Start, CancelEvent::Began { network: Ok(()), pending: None });
    assert!(matches!(s, CancelState::Finished));
    assert!(matches!(a, CancelAction::Finish { clear_pending: false, result: Ok(()) }));
}

#[test]
fn refused_cancel_keeps_the_sign_in() {
    let (pending, _) = accept_challenge(BASE.into(), COMPANY.into(), challenge()).unwrap();
    let (s, _) = paperclip_login_cancel(
        CancelState::Start,
        CancelEvent::Began { network: Ok(()), pending: Some(pending) },
    );
    let (s, _) = paperclip_login_cancel(s, CancelEvent::ClientPrepared(Ok(())));
    let refused = AppError::HttpStatus { url: "Paperclip sign-in cancel".into(), status: 500 };
    let (_, a) = paperclip_login_cancel(s, CancelEvent::CancelSent(Err(refused)));
    assert!(matches!(a, CancelAction::Finish { clear_pending: false, result: Err(AppError::HttpStatus { status: 500, .. }) }));
    let (_, a) = paperclip_login_cancel(
        CancelState::Start,
        CancelEvent::Began { network: Err(invalid("offline")), pending: None },
    );
    assert!(matches!(a, CancelAction::Finish { clear_pending: false, result: Err(_) }));
}

#[test]
fn keychain_answers_with_a_token_or_a_keychain_error() {
    match write_keychain_token("pcp_board_test") {
        Ok(()) => {}
        Err(AppError::KeychainUnavailable { .. }) => {}
        Err(_) => panic!("expected a keychain error"),
    }
    match read_keychain_token() {
        Ok(_) => {}
        Err(AppError::KeychainUnavailable { .. }) => {}
        Err(_) => panic!("expected a keychain error"),
    }
}

#[test]
fn start_value_does_not_depend_on_the_board_token() {
    let mut other = challenge();
    other.board_api_token = "pcp_board_another_secret".to_string();
    let (p1, s1) = accept_challenge(BASE.into(), COMPANY.into(), challenge()).unwrap();
    let (p2, s2) = accept_challenge(BASE.into(), COMPANY.into(), other).unwrap();
    assert_eq!(s1.approval_url, s2.approval_url);
    assert_eq!(s1.expires_at, s2.expires_at);
    assert_eq!(s1.poll_interval_ms, s2.poll_interval_ms);
    assert_ne!(p1.board_api_token, p2.board_api_token);
}

#[test]
fn approval_link_decision_needs_the_path_and_the_token_pair() {
    let pairs = vec![("next".to_string(), "/board".to_string()), ("token".to_string(), "tok-1".to_string())];
    assert!(approval_link_accepts("abc-123", "tok-1", Some(("/cli-auth/abc-123".to_string(), pairs.clone()))));
    assert!(!approval_link_accepts("abc-123", "tok-2", Some(("/cli-auth/abc-123".to_string(), pairs.clone()))));
    assert!(!approval_link_accepts("abc-124", "tok-1", Some(("/cli-auth/abc-123".to_string(), pairs))));
    assert!(!approval_link_accepts("abc-123", "tok-1", None));
}
