use paperclip_bridge::commands::{
    connection_with_token, disconnect_plan, paperclip_agents_list, paperclip_projects_list,
    status_report, stored_connection, DisconnectPlan, MAX_ROSTER_ENTRIES,
};
use paperclip_bridge::dto::{PaperclipAgentSummary, PaperclipConfig, PaperclipProjectSummary};
use paperclip_bridge::error::AppError;
use paperclip_bridge::keychain::{deletion_outcome, password_read_outcome, KeyringFailure};

fn config() -> PaperclipConfig {
    PaperclipConfig {
        api_base_url: "https://paperclip.example".to_string(),
        company_id: "550e8400-e29b-41d4-a716-446655440000".to_string(),
    }
}

fn agent(i: usize) -> PaperclipAgentSummary {
    PaperclipAgentSummary {
        id: format!("agent-{i}"),
        name: format!("Agent {i}"),
        title: None,
        role: Some("engineer".to_string()),
        adapter_type: None,
        status: None,
    }
}

fn project(i: usize) -> PaperclipProjectSummary {
    PaperclipProjectSummary { id: format!("p-{i}"), name: format!("P {i}"), status: None, url_key: None }
}

#[test]
fn status_is_configured_only_with_connection_and_token() {
    let s = status_report(Some(config()), true);
    assert!(s.configured);
    assert_eq!(s.api_base_url.as_deref(), Some("https://paperclip.example"));
    assert_eq!(s.company_id.as_deref(), Some("550e8400-e29b-41d4-a716-446655440000"));

    let s = status_report(Some(config()), false);
    assert!(!s.configured);
    assert_eq!(s.api_base_url.as_deref(), Some("https://paperclip.example"));

    let s = status_report(None, true);
    assert!(!s.configured);
    assert!(s.api_base_url.is_none());
    assert!(s.company_id.is_none());
}

#[test]
fn connection_needs_a_token() {
    let (c, t) = connection_with_token(config(), Some("pcp_board_x".to_string())).unwrap();
    assert_eq!(c.api_base_url, "https://paperclip.example");
    assert_eq!(t, "pcp_board_x");
    match connection_with_token(config(), None) {
        Err(AppError::InvalidArgument { message }) => assert_eq!(message, "Paperclip is not connected."),
        _ => panic!("expected an invalid-argument error"),
    }
}

#[test]
fn connection_needs_saved_settings_before_the_keychain_is_asked() {
    match stored_connection(None) {
        Err(AppError::InvalidArgument { message }) => assert_eq!(message, "Connect to Paperclip first."),
        _ => panic!("expected an invalid-argument error"),
    }
}

#[test]
fn disconnect_revokes_only_with_connection_and_token() {
    match disconnect_plan(Some(config()), Some("pcp_board_x".to_string())) {
        DisconnectPlan::RevokeThenForget { api_base_url, token } => {
            assert_eq!(api_base_url, "https://paperclip.example");
            assert_eq!(token, "pcp_board_x");
        }
        DisconnectPlan::ForgetOnly => panic!("expected a revocation"),
    }
    assert!(matches!(disconnect_plan(Some(config()), None), DisconnectPlan::ForgetOnly));
    assert!(matches!(disconnect_plan(None, Some("t".to_string())), DisconnectPlan::ForgetOnly));
    assert!(matches!(disconnect_plan(None, None), DisconnectPlan::ForgetOnly));
}

#[test]
fn rosters_are_cut_to_five_hundred_entries() {
    assert_eq!(MAX_ROSTER_ENTRIES, 500);
    let agents = paperclip_agents_list((0..501).map(agent).collect());
    assert_eq!(agents.len(), 500);
    assert_eq!(agents[0].id, "agent-0");
    assert_eq!(agents[499].id, "agent-499");
    let few = paperclip_agents_list((0..3).map(agent).collect());
    assert_eq!(few.len(), 3);
    assert_eq!(few[2].id, "agent-2");
    let projects = paperclip_projects_list((0..700).map(project).collect());
    assert_eq!(projects.len(), 500);
    assert_eq!(projects[499].id, "p-499");
    assert!(paperclip_projects_list(Vec::new()).is_empty());
}

#[test]
fn keychain_reads_tell_a_missing_token_from_a_failure() {
    assert_eq!(password_read_outcome(Ok("pcp_board_x".to_string())).unwrap(), Some("pcp_board_x".to_string()));
    assert_eq!(password_read_outcome(Err(KeyringFailure::NoEntry)).unwrap(), None);
    match password_read_outcome(Err(KeyringFailure::Other)) {
        Err(AppError::KeychainUnavailable { message }) => {
            assert_eq!(message, "Paperclip credential could not be read from Keychain.")
        }
        _ => panic!("expected a keychain error"),
    }
}

#[test]
fn keychain_deletion_of_a_missing_token_succeeds() {
    assert!(deletion_outcome(Ok(())).is_ok());
    assert!(deletion_outcome(Err(KeyringFailure::NoEntry)).is_ok());
    match deletion_outcome(Err(KeyringFailure::Other)) {
        Err(AppError::KeychainUnavailable { message }) => {
            assert_eq!(message, "Paperclip credential could not be removed from Keychain.")
        }
        _ => panic!("expected a keychain error"),
    }
}
