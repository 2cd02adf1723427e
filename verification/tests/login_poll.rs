use paperclip_bridge::dto::{PaperclipConfig, PendingPaperclipAuth};
use paperclip_bridge::error::AppError;
use paperclip_bridge::login::{paperclip_login_poll, PollAction, PollEvent, PollState};

fn pending() -> PendingPaperclipAuth {
    PendingPaperclipAuth {
        api_base_url: "https://paperclip.example".to_string(),
        company_id: "550e8400-e29b-41d4-a716-446655440000".to_string(),
        challenge_id: "abc-123".to_string(),
        challenge_token: "tok-1".to_string(),
        board_api_token: "pcp_board_zzz".to_string(),
    }
}

fn io(message: &str) -> AppError {
    AppError::Io { message: message.to_string() }
}

/// Runs the poll up to the state that waits for the challenge status.
fn to_status() -> PollState {
    let (s, a) = paperclip_login_poll(
        PollState::Start,
        PollEvent::Began { network: Ok(()), pending: Some(pending()) },
    );
    assert!(matches!(a, PollAction::PrepareClient));
    let (s, a) = paperclip_login_poll(s, PollEvent::ClientPrepared(Ok(())));
    match a {
        PollAction::FetchStatus { url, token } => {
            assert_eq!(url, "https://paperclip.example/api/cli-auth/challenges/abc-123");
            assert_eq!(token, "tok-1");
        }
        _ => panic!("expected a status request"),
    }
    s
}

/// Runs the poll up to the state that waits for the account identity.
fn to_identity() -> PollState {
    let (s, a) = paperclip_login_poll(to_status(), PollEvent::StatusFetched(Ok("approved".to_string())));
    match a {
        PollAction::FetchIdentity { url, bearer } => {
            assert_eq!(url, "https://paperclip.example/api/cli-auth/me");
            assert_eq!(bearer, "pcp_board_zzz");
        }
        _ => panic!("expected an identity request"),
    }
    s
}

fn company_ids() -> Vec<String> {
    vec!["other".to_string(), "550e8400-e29b-41d4-a716-446655440000".to_string()]
}

/// Runs the poll up to the state that waits for the new connection to be saved.
fn to_config_write() -> PollState {
    let (s, a) = paperclip_login_poll(to_identity(), PollEvent::IdentityFetched(Ok(company_ids())));
    assert!(matches!(a, PollAction::ReadPreviousConfig));
    let previous = PaperclipConfig { api_base_url: "https://old.example".into(), company_id: "old".into() };
    let (s, a) = paperclip_login_poll(s, PollEvent::PreviousConfigRead(Ok(Some(previous))));
    match a {
        PollAction::WriteConfig { config } => {
            assert_eq!(config.api_base_url, "https://paperclip.example");
            assert_eq!(config.company_id, "550e8400-e29b-41d4-a716-446655440000");
        }
        _ => panic!("expected a settings write"),
    }
    s
}

fn expect_revoke(a: &PollAction) {
    match a {
        PollAction::Revoke { url, bearer } => {
            assert_eq!(url, "https://paperclip.example/api/cli-auth/revoke-current");
            assert_eq!(bearer, "pcp_board_zzz");
        }
        _ => panic!("expected a revocation"),
    }
}

fn finish_error(a: PollAction) -> (bool, AppError) {
    match a {
        PollAction::Finish { clear_pending, result: Err(e) } => (clear_pending, e),
        _ => panic!("expected the poll to end with an error"),
    }
}

fn finish_status(a: PollAction) -> (bool, String) {
    match a {
        PollAction::Finish { clear_pending, result: Ok(poll) } => (clear_pending, poll.status),
        _ => panic!("expected the poll to end with a status"),
    }
}

#[test]
fn approved_sign_in_is_saved_then_stored() {
    let (s, a) = paperclip_login_poll(to_config_write(), PollEvent::ConfigWritten(Ok(())));
    match a {
        PollAction::StoreToken { token } => assert_eq!(token, "pcp_board_zzz"),
        _ => panic!("expected the token to be stored"),
    }
    let (s, a) = paperclip_login_poll(s, PollEvent::TokenStored(Ok(())));
    assert!(matches!(s, PollState::Finished));
    assert_eq!(finish_status(a), (true, "approved".to_string()));
}

#[test]
fn pending_status_keeps_the_sign_in() {
    let (s, a) = paperclip_login_poll(to_status(), PollEvent::StatusFetched(Ok("pending".to_string())));
    assert!(matches!(s, PollState::Finished));
    assert_eq!(finish_status(a), (false, "pending".to_string()));
}

#[test]
fn cancelled_and_expired_statuses_drop_the_sign_in() {
    for status in ["cancelled", "expired"] {
        let (_, a) = paperclip_login_poll(to_status(), PollEvent::StatusFetched(Ok(status.to_string())));
        assert_eq!(finish_status(a), (true, status.to_string()));
    }
}

#[test]
fn unknown_status_is_an_error_that_keeps_the_sign_in() {
    let (_, a) = paperclip_login_poll(to_status(), PollEvent::StatusFetched(Ok("Approved".to_string())));
    let (clear, e) = finish_error(a);
    assert!(!clear);
    assert!(matches!(e, AppError::InvalidArgument { message } if message == "Paperclip returned an unknown sign-in status."));
}

#[test]
fn failed_network_check_drops_the_sign_in() {
    let (_, a) = paperclip_login_poll(
        PollState::Start,
        PollEvent::Began { network: Err(io("offline")), pending: Some(pending()) },
    );
    let (clear, e) = finish_error(a);
    assert!(clear);
    assert!(matches!(e, AppError::Io { message } if message == "offline"));
}

#[test]
fn poll_without_a_sign_in_is_refused() {
    let (_, a) = paperclip_login_poll(PollState::Start, PollEvent::Began { network: Ok(()), pending: None });
    let (clear, e) = finish_error(a);
    assert!(!clear);
    assert!(matches!(e, AppError::InvalidArgument { message } if message == "No Paperclip sign-in is in progress."));
}

#[test]
fn failed_requests_keep_the_sign_in() {
    let (_, a) = paperclip_login_poll(to_status(), PollEvent::StatusFetched(Err(io("down"))));
    assert!(!finish_error(a).0);
    let (_, a) = paperclip_login_poll(to_identity(), PollEvent::IdentityFetched(Err(io("down"))));
    assert!(!finish_error(a).0);
    let (s, _) = paperclip_login_poll(
        PollState::Start,
        PollEvent::Began { network: Ok(()), pending: Some(pending()) },
    );
    let (_, a) = paperclip_login_poll(s, PollEvent::ClientPrepared(Err(io("tls"))));
    assert!(!finish_error(a).0);
}

#[test]
fn account_without_the_company_is_revoked_and_refused() {
    let (s, a) = paperclip_login_poll(to_identity(), PollEvent::IdentityFetched(Ok(vec!["other".to_string()])));
    expect_revoke(&a);
    for revoked in [true, false] {
        let (_, a) = paperclip_login_poll(
            PollState::AwaitingRevoke {
                error: AppError::InvalidArgument {
                    message: "The approved Paperclip account cannot access the selected company.".into(),
                },
                unconfirmed: None,
            },
            PollEvent::RevokeSettled(revoked),
        );
        let (clear, e) = finish_error(a);
        assert!(clear);
        assert!(matches!(e, AppError::InvalidArgument { message } if message == "The approved Paperclip account cannot access the selected company."));
    }
    let (_, a) = paperclip_login_poll(s, PollEvent::RevokeSettled(false));
    assert!(finish_error(a).0);
}

#[test]
fn unreadable_previous_settings_revoke_and_report_the_read_error() {
    let (s, _) = paperclip_login_poll(to_identity(), PollEvent::IdentityFetched(Ok(company_ids())));
    let (s, a) = paperclip_login_poll(s, PollEvent::PreviousConfigRead(Err(io("unreadable"))));
    expect_revoke(&a);
    let (_, a) = paperclip_login_poll(s, PollEvent::RevokeSettled(false));
    let (clear, e) = finish_error(a);
    assert!(clear);
    assert!(matches!(e, AppError::Io { message } if message == "unreadable"));
}

#[test]
fn failed_save_reports_its_error_only_when_the_token_was_revoked() {
    let (s, a) = paperclip_login_poll(to_config_write(), PollEvent::ConfigWritten(Err(io("disk full"))));
    expect_revoke(&a);
    let (_, a) = paperclip_login_poll(s, PollEvent::RevokeSettled(true));
    let (clear, e) = finish_error(a);
    assert!(clear);
    assert!(matches!(e, AppError::Io { message } if message == "disk full"));

    let (s, _) = paperclip_login_poll(to_config_write(), PollEvent::ConfigWritten(Err(io("disk full"))));
    let (_, a) = paperclip_login_poll(s, PollEvent::RevokeSettled(false));
    let (clear, e) = finish_error(a);
    assert!(clear);
    assert!(matches!(e, AppError::Internal { message } if message == "Could not save the Paperclip connection or confirm token revocation; revoke the pending Paperclip key in Paperclip."));
}

#[test]
fn refused_token_restores_the_previous_settings_then_revokes() {
    let (s, _) = paperclip_login_poll(to_config_write(), PollEvent::ConfigWritten(Ok(())));
    let keychain_error = AppError::KeychainUnavailable { message: "locked".into() };
    let (s, a) = paperclip_login_poll(s, PollEvent::TokenStored(Err(keychain_error)));
    match a {
        PollAction::RestoreConfig { previous: Some(c) } => assert_eq!(c.api_base_url, "https://old.example"),
        _ => panic!("expected the previous settings to be restored"),
    }
    let (s, a) = paperclip_login_poll(s, PollEvent::ConfigRestored);
    expect_revoke(&a);
    let (_, a) = paperclip_login_poll(s, PollEvent::RevokeSettled(false));
    let (clear, e) = finish_error(a);
    assert!(clear);
    assert!(matches!(e, AppError::Internal { message } if message == "Could not store the Paperclip credential or confirm token revocation; revoke the pending Paperclip key in Paperclip."));
}

#[test]
fn refused_token_after_revocation_reports_the_keychain_error() {
    let (s, _) = paperclip_login_poll(to_config_write(), PollEvent::ConfigWritten(Ok(())));
    let (s, _) = paperclip_login_poll(
        s,
        PollEvent::TokenStored(Err(AppError::KeychainUnavailable { message: "locked".into() })),
    );
    let (s, _) = paperclip_login_poll(s, PollEvent::ConfigRestored);
    let (_, a) = paperclip_login_poll(s, PollEvent::RevokeSettled(true));
    let (clear, e) = finish_error(a);
    assert!(clear);
    assert!(matches!(e, AppError::KeychainUnavailable { message } if message == "locked"));
}

#[test]
fn unreachable_revocation_endpoint_ends_the_poll_without_a_request() {
    let mut p = pending();
    p.api_base_url = "not a url".to_string();
    let (_, a) = paperclip_login_poll(
        PollState::AwaitingConfigWrite { pending: p, previous: None },
        PollEvent::ConfigWritten(Err(io("disk full"))),
    );
    let (clear, e) = finish_error(a);
    assert!(clear);
    assert!(matches!(e, AppError::Internal { .. }));
}

#[test]
fn duplicate_copies_every_field_of_a_sign_in() {
    let copy = pending().duplicate();
    assert_eq!(copy.api_base_url, "https://paperclip.example");
    assert_eq!(copy.company_id, "550e8400-e29b-41d4-a716-446655440000");
    assert_eq!(copy.challenge_id, "abc-123");
    assert_eq!(copy.challenge_token, "tok-1");
    assert_eq!(copy.board_api_token, "pcp_board_zzz");
}

#[test]
fn approved_poll_ends_within_nine_steps() {
    let events = vec![
        PollEvent::Began { network: Ok(()), pending: Some(pending()) },
        PollEvent::ClientPrepared(Ok(())),
        PollEvent::StatusFetched(Ok("approved".to_string())),
        PollEvent::IdentityFetched(Ok(company_ids())),
        PollEvent::PreviousConfigRead(Ok(None)),
        PollEvent::ConfigWritten(Ok(())),
        PollEvent::TokenStored(Ok(())),
    ];
    let mut state = PollState::Start;
    let mut steps = 0;
    for event in events {
        let (next, action) = paperclip_login_poll(state, event);
        steps += 1;
        state = next;
        if let PollAction::Finish { clear_pending, result } = action {
            assert!(clear_pending);
            assert_eq!(result.unwrap().status, "approved");
            break;
        }
    }
    assert!(matches!(state, PollState::Finished));
    assert!(steps <= 9);
}
