//! The decisions of the connection commands: the status report, the stored
//! connection, disconnecting, and the roster lists.
use crate::dto::{
    ConfigView, PaperclipAgentSummary, PaperclipConfig, PaperclipProjectSummary, PaperclipStatus,
    StatusView,
};
use crate::error::{invalid, AppError, AppErrorView};
use crate::keychain::{is_token_read, read_keychain_token};
use vstd::prelude::*;

verus! {

/// The most roster entries the bridge hands on.
pub const MAX_ROSTER_ENTRIES: usize = 500;

/// An optional connection, taken by its view.
pub open spec fn config_option_view(c: Option<PaperclipConfig>) -> Option<ConfigView> {
    match c {
        Some(c) => Some(c@),
        None => None,
    }
}

/// The status report for the saved connection `config`, where `has_token`
/// tells whether the keychain holds a board token.
pub open spec fn status_view_of(config: Option<ConfigView>, has_token: bool) -> StatusView {
    StatusView {
        configured: config is Some && has_token,
        api_base_url: match config {
            Some(c) => Some(c.api_base_url),
            None => None,
        },
        company_id: match config {
            Some(c) => Some(c.company_id),
            None => None,
        },
    }
}

/// Reports the saved connection `config`; it counts as configured only when
/// the keychain holds a board token too.
pub fn status_report(config: Option<PaperclipConfig>, has_token: bool) -> (r: PaperclipStatus)
    ensures
        r@ == status_view_of(config_option_view(config), has_token),
{
    match config {
        Some(c) => PaperclipStatus {
            configured: has_token,
            api_base_url: Some(c.api_base_url),
            company_id: Some(c.company_id),
        },
        None => PaperclipStatus { configured: false, api_base_url: None, company_id: None },
    }
}

/// Reports the saved connection `config` after asking the keychain whether
/// it holds a board token.
pub fn paperclip_status(config: Option<PaperclipConfig>) -> (r: Result<PaperclipStatus, AppError>)
    ensures
        r matches Ok(s) ==> s@ == status_view_of(config_option_view(config), true) || s@
            == status_view_of(config_option_view(config), false),
        r matches Err(e) ==> is_token_read(Err(e)),
{
    let has_token = read_keychain_token()?.is_some();
    Ok(status_report(config, has_token))
}

pub open spec fn msg_connect_first() -> Seq<char> {
    "Connect to Paperclip first."@
}

pub open spec fn msg_not_connected() -> Seq<char> {
    "Paperclip is not connected."@
}

/// The stored connection, given the board token the keychain holds, if any.
pub fn connection_with_token(config: PaperclipConfig, token: Option<String>) -> (r: Result<
    (PaperclipConfig, String),
    AppError,
>)
    ensures
        match token {
            Some(t) => r matches Ok((c, t2)) && c@ == config@ && t2@ == t@,
            None => r matches Err(e) && e@ == AppErrorView::InvalidArgument(msg_not_connected()),
        },
{
    match token {
        Some(t) => Ok((config, t)),
        None => Err(invalid("Paperclip is not connected.")),
    }
}

/// The saved connection `config` together with the board token from the
/// keychain; it fails before asking the keychain when nothing is saved.
pub fn stored_connection(config: Option<PaperclipConfig>) -> (r: Result<
    (PaperclipConfig, String),
    AppError,
>)
    ensures
        config is None ==> (r matches Err(e) && e@ == AppErrorView::InvalidArgument(
            msg_connect_first(),
        )),
        config matches Some(c) ==> match r {
            Ok((c2, _)) => c2@ == c@,
            Err(e) => e@ == AppErrorView::InvalidArgument(msg_not_connected()) || is_token_read(
                Err(e),
            ),
        },
{
    match config {
        None => Err(invalid("Connect to Paperclip first.")),
        Some(c) => {
            let token = read_keychain_token()?;
            connection_with_token(c, token)
        },
    }
}

/// What disconnecting takes: revoking the board token at the server first
/// when both a connection and a token are saved, or only forgetting them.
pub enum DisconnectPlan {
    RevokeThenForget { api_base_url: String, token: String },
    ForgetOnly,
}

/// The disconnect plan for the saved connection `config` and keychain token
/// `token`.
pub fn disconnect_plan(config: Option<PaperclipConfig>, token: Option<String>) -> (r:
    DisconnectPlan)
    ensures
        match (config, token) {
            (Some(c), Some(t)) => r matches DisconnectPlan::RevokeThenForget {
                api_base_url,
                token: t2,
            } && api_base_url@ == c.api_base_url@ && t2@ == t@,
            _ => r is ForgetOnly,
        },
{
    match (config, token) {
        (Some(c), Some(t)) => DisconnectPlan::RevokeThenForget {
            api_base_url: c.api_base_url,
            token: t,
        },
        _ => DisconnectPlan::ForgetOnly,
    }
}

/// Plans the disconnect of the saved connection `config` after reading the
/// board token from the keychain.
pub fn paperclip_disconnect(config: Option<PaperclipConfig>) -> (r: Result<
    DisconnectPlan,
    AppError,
>)
    ensures
        r matches Ok(DisconnectPlan::RevokeThenForget { api_base_url, .. }) ==> config matches Some(
            c,
        ) && api_base_url@ == c.api_base_url@,
        r matches Err(e) ==> is_token_read(Err(e)),
{
    let token = read_keychain_token()?;
    Ok(disconnect_plan(config, token))
}

/// The first `MAX_ROSTER_ENTRIES` entries of `s`.
pub open spec fn roster_prefix<T>(s: Seq<T>) -> Seq<T> {
    if s.len() <= MAX_ROSTER_ENTRIES {
        s
    } else {
        s.subrange(0, MAX_ROSTER_ENTRIES as int)
    }
}

/// The agents handed on from a roster response: at most the first 500.
pub fn paperclip_agents_list(agents: Vec<PaperclipAgentSummary>) -> (r: Vec<
    PaperclipAgentSummary,
>)
    ensures
        r@ == roster_prefix(agents@),
{
    let mut agents = agents;
    agents.truncate(MAX_ROSTER_ENTRIES);
    agents
}

/// The projects handed on from a project response: at most the first 500.
pub fn paperclip_projects_list(projects: Vec<PaperclipProjectSummary>) -> (r: Vec<
    PaperclipProjectSummary,
>)
    ensures
        r@ == roster_prefix(projects@),
{
    let mut projects = projects;
    projects.truncate(MAX_ROSTER_ENTRIES);
    projects
}

} // verus!
