//! The browser-approved sign-in: starting it, checking the challenge that
//! Paperclip issues, polling it to its end, and cancelling it.
//!
//! Polling alternates network and storage work with decisions, so it is a
//! state machine: `paperclip_login_poll` takes the current state and the
//! outcome of the last action, and gives the next state and the next action.
//! The caller performs the actions.
use crate::connection::{
    api_base_outcome, challenge_cancel_url, challenge_status_url, company_id_outcome, endpoint,
    endpoint_outcome, identity_url, normalize_api_base, normalize_company_id, revoke_url,
    url_parse_spec, url_query_pairs_spec, parse_approval_link,
};
use crate::dto::{
    ChallengeView, CliAuthChallenge, ConfigView, LoginStartView, PaperclipAuthPoll,
    PaperclipConfig, PaperclipLoginStart, PendingPaperclipAuth, PendingView,
};
use crate::error::{invalid, AppError, AppErrorView};
use crate::text::{all_id_chars, byte_len, has_prefix, is_id_char, starts_with};
use vstd::prelude::*;
use vstd::string::*;

verus! {

// ---------------------------------------------------------------------------
// Starting a sign-in
// ---------------------------------------------------------------------------

pub open spec fn msg_sign_in_in_progress() -> Seq<char> {
    "A Paperclip sign-in is already in progress."@
}

/// What `paperclip_login_start` answers: the normalised server origin and
/// company id, or the first error among the server URL, the company id and a
/// sign-in already in progress.
pub open spec fn login_start_outcome(
    api_base_url: Seq<char>,
    company_id: Seq<char>,
    sign_in_pending: bool,
) -> Result<(Seq<char>, Seq<char>), AppErrorView> {
    match api_base_outcome(api_base_url) {
        Err(e) => Err(e),
        Ok(base) => match company_id_outcome(company_id) {
            Err(e) => Err(e),
            Ok(id) => if sign_in_pending {
                Err(AppErrorView::InvalidArgument(msg_sign_in_in_progress()))
            } else {
                Ok((base, id))
            },
        },
    }
}

/// A result that carries two strings, taken by its view.
pub open spec fn pair_result_view(r: &Result<(String, String), AppError>) -> Result<
    (Seq<char>, Seq<char>),
    AppErrorView,
> {
    match r {
        Ok((a, b)) => Ok((a@, b@)),
        Err(e) => Err(e@),
    }
}

/// Checks the server URL and company id of a new sign-in, and refuses it
/// while another one is in progress (`sign_in_pending`). On success it gives
/// the normalised server origin and company id to send the challenge request
/// with.
pub fn paperclip_login_start(api_base_url: &str, company_id: &str, sign_in_pending: bool) -> (r:
    Result<(String, String), AppError>)
    ensures
        pair_result_view(&r) == login_start_outcome(api_base_url@, company_id@, sign_in_pending),
        sign_in_pending ==> r is Err,
{
    let base = normalize_api_base(api_base_url)?;
    let id = normalize_company_id(company_id)?;
    if sign_in_pending {
        return Err(invalid("A Paperclip sign-in is already in progress."));
    }
    Ok((base, id))
}

// ---------------------------------------------------------------------------
// Accepting the challenge
// ---------------------------------------------------------------------------

pub open spec fn msg_bad_challenge() -> Seq<char> {
    "Paperclip returned an invalid sign-in challenge."@
}

pub open spec fn msg_bad_approval_link() -> Seq<char> {
    "Paperclip returned an invalid approval link."@
}

/// The challenge is well formed: a non-empty id of at most 128 bytes made of
/// ASCII letters, digits and `'-'`, a board token that starts with
/// `pcp_board_`, and a non-empty challenge token of at most 512 bytes.
pub open spec fn challenge_is_well_formed(c: ChallengeView) -> bool {
    &&& c.id.len() > 0
    &&& byte_len(c.id) <= 128
    &&& forall|k: int| 0 <= k < c.id.len() ==> is_id_char(#[trigger] c.id[k])
    &&& has_prefix(c.board_api_token, "pcp_board_"@)
    &&& c.token.len() > 0
    &&& byte_len(c.token) <= 512
}

/// The approval path of the challenge, read as a URL on a placeholder
/// origin, has the path `/cli-auth/<id>` and a query pair `token=<token>`.
pub open spec fn approval_link_matches(c: ChallengeView) -> bool {
    approval_decision(c.id, c.token, link_parse("https://paperclip.invalid"@ + c.approval_path))
}

/// The path and decoded query pairs of `link` as the `url` crate reads
/// them, or `None` where it does not parse.
pub open spec fn link_parse(link: Seq<char>) -> Option<(Seq<char>, Seq<(Seq<char>, Seq<char>)>)> {
    match url_parse_spec(link) {
        Some(parts) => Some((parts.path, url_query_pairs_spec(link)->0)),
        None => None,
    }
}

/// What `approval_link_accepts` answers for challenge `id` and `token` and
/// the parsed approval link: it parses, its path is `/cli-auth/<id>`, and one
/// of its query pairs is `token=<token>`.
pub open spec fn approval_decision(
    id: Seq<char>,
    token: Seq<char>,
    parsed: Option<(Seq<char>, Seq<(Seq<char>, Seq<char>)>)>,
) -> bool {
    match parsed {
        None => false,
        Some((path, pairs)) => path == "/cli-auth/"@ + id && exists|k: int|
            0 <= k < pairs.len() && #[trigger] pairs[k] == ("token"@, token),
    }
}

/// The poll interval: the suggested one, 1000 ms where none is suggested,
/// held between 500 and 5000 ms.
pub open spec fn poll_interval_spec(suggested: Option<u64>) -> u64 {
    let wanted = match suggested {
        Some(ms) => ms,
        None => 1000,
    };
    if wanted < 500 {
        500
    } else if wanted > 5000 {
        5000
    } else {
        wanted
    }
}

/// What `accept_challenge` answers for a challenge `c` issued to a sign-in
/// at `base` for company `company`.
pub open spec fn challenge_outcome(base: Seq<char>, company: Seq<char>, c: ChallengeView) -> Result<
    (PendingView, LoginStartView),
    AppErrorView,
> {
    if !challenge_is_well_formed(c) {
        Err(AppErrorView::InvalidArgument(msg_bad_challenge()))
    } else if !approval_link_matches(c) {
        Err(AppErrorView::InvalidArgument(msg_bad_approval_link()))
    } else {
        match endpoint_outcome(base, c.approval_path) {
            Err(e) => Err(e),
            Ok(approval_url) => Ok(
                (
                    PendingView {
                        api_base_url: base,
                        company_id: company,
                        challenge_id: c.id,
                        challenge_token: c.token,
                        board_api_token: c.board_api_token,
                    },
                    LoginStartView {
                        approval_url,
                        expires_at: c.expires_at,
                        poll_interval_ms: poll_interval_spec(c.suggested_poll_interval_ms),
                    },
                ),
            ),
        }
    }
}

/// A result that carries an accepted sign-in, taken by its view.
pub open spec fn accepted_view(r: &Result<(PendingPaperclipAuth, PaperclipLoginStart), AppError>) -> Result<
    (PendingView, LoginStartView),
    AppErrorView,
> {
    match r {
        Ok((p, s)) => Ok((p@, s@)),
        Err(e) => Err(e@),
    }
}

/// The poll interval for the suggested one.
pub fn poll_interval(suggested: Option<u64>) -> (r: u64)
    ensures
        r == poll_interval_spec(suggested),
        500 <= r <= 5000,
{
    let wanted = match suggested {
        Some(ms) => ms,
        None => 1000,
    };
    if wanted < 500 {
        500
    } else if wanted > 5000 {
        5000
    } else {
        wanted
    }
}

/// Tells whether challenge `c` is well formed.
fn check_challenge_shape(c: &CliAuthChallenge) -> (r: bool)
    ensures
        r == challenge_is_well_formed(c@),
{
    let id_ok = !c.id.as_str().is_empty() && c.id.as_str().len() <= 128 && all_id_chars(
        c.id.as_str(),
    );
    let token_ok = starts_with(c.board_api_token.as_str(), "pcp_board_")
        && !c.token.as_str().is_empty() && c.token.as_str().len() <= 512;
    id_ok && token_ok
}

/// Decides the approval link of challenge `challenge_id` with token
/// `token`, given the link's path and decoded query pairs (`None` where it
/// does not parse as a URL).
pub fn approval_link_accepts(
    challenge_id: &str,
    token: &str,
    parsed: Option<(String, Vec<(String, String)>)>,
) -> (r: bool)
    ensures
        r == approval_decision(challenge_id@, token@, parsed.deep_view()),
{
    match parsed {
        None => false,
        Some((path, pairs)) => {
            let expected_path = "/cli-auth/".to_owned().concat(challenge_id);
            let key = "token".to_owned();
            let wanted = token.to_owned();
            let mut found = false;
            let mut i: usize = 0;
            while i < pairs.len()
                invariant
                    i <= pairs.len(),
                    key@ == "token"@,
                    wanted@ == token@,
                    found <==> exists|k: int|
                        0 <= k < i && #[trigger] pairs.deep_view()[k] == ("token"@, token@),
                decreases pairs.len() - i,
            {
                let hit = pairs[i].0 == key && pairs[i].1 == wanted;
                assert(pairs.deep_view()[i as int] == (pairs@[i as int].0@, pairs@[i as int].1@));
                if hit {
                    found = true;
                }
                i = i + 1;
            }
            let path_ok = path == expected_path;
            path_ok && found
        },
    }
}

/// Tells whether the approval path of challenge `c` matches its id and
/// token.
fn check_approval_link(c: &CliAuthChallenge) -> (r: bool)
    ensures
        r == approval_link_matches(c@),
{
    let link = "https://paperclip.invalid".to_owned().concat(c.approval_path.as_str());
    approval_link_accepts(c.id.as_str(), c.token.as_str(), parse_approval_link(link.as_str()))
}

/// Checks the challenge that Paperclip issued to a sign-in at `api_base_url`
/// for company `company_id`. On success it gives the sign-in to keep pending
/// and what to tell the user: the approval URL on the server, when the
/// challenge expires, and the poll interval.
pub fn accept_challenge(api_base_url: String, company_id: String, challenge: CliAuthChallenge) -> (r:
    Result<(PendingPaperclipAuth, PaperclipLoginStart), AppError>)
    ensures
        accepted_view(&r) == challenge_outcome(api_base_url@, company_id@, challenge@),
        r matches Ok((_, start)) ==> 500 <= start.poll_interval_ms <= 5000,
{
    if !check_challenge_shape(&challenge) {
        return Err(invalid("Paperclip returned an invalid sign-in challenge."));
    }
    if !check_approval_link(&challenge) {
        return Err(invalid("Paperclip returned an invalid approval link."));
    }
    let approval_url = endpoint(api_base_url.as_str(), challenge.approval_path.as_str())?;
    let poll_interval_ms = poll_interval(challenge.suggested_poll_interval_ms);
    let pending = PendingPaperclipAuth {
        api_base_url,
        company_id,
        challenge_id: challenge.id,
        challenge_token: challenge.token,
        board_api_token: challenge.board_api_token,
    };
    let start = PaperclipLoginStart {
        approval_url,
        expires_at: challenge.expires_at,
        poll_interval_ms,
    };
    Ok((pending, start))
}

// ---------------------------------------------------------------------------
// Polling a sign-in
// ---------------------------------------------------------------------------

/// Where a poll stands. Each state but `Start` and `Finished` waits for the
/// outcome of the action that led to it.
pub enum PollState {
    /// Waits for the network check and the pending sign-in.
    Start,
    /// Waits for the HTTP client.
    AwaitingClient { pending: PendingPaperclipAuth },
    /// Waits for the challenge status.
    AwaitingStatus { pending: PendingPaperclipAuth },
    /// Waits for the companies of the approved account.
    AwaitingIdentity { pending: PendingPaperclipAuth },
    /// Waits for the connection saved before this sign-in.
    AwaitingPrevious { pending: PendingPaperclipAuth },
    /// Waits for the new connection to be saved.
    AwaitingConfigWrite { pending: PendingPaperclipAuth, previous: Option<PaperclipConfig> },
    /// Waits for the board token to be stored in the keychain.
    AwaitingTokenStore { pending: PendingPaperclipAuth, previous: Option<PaperclipConfig> },
    /// Waits for the previous connection to be restored after the keychain
    /// refused the token.
    AwaitingRestore { pending: PendingPaperclipAuth, error: AppError },
    /// Waits for the board token to be revoked after a failure; reports
    /// `error`, or `unconfirmed` where that is given and the revocation failed.
    AwaitingRevoke { error: AppError, unconfirmed: Option<AppError> },
    /// The poll is over.
    Finished,
}

/// The outcome of the last action, as the caller reports it.
pub enum PollEvent {
    /// The network check, and the sign-in that is pending, if any.
    Began { network: Result<(), AppError>, pending: Option<PendingPaperclipAuth> },
    /// The HTTP client was built, or not.
    ClientPrepared(Result<(), AppError>),
    /// The status of the challenge.
    StatusFetched(Result<String, AppError>),
    /// The companies the approved account can access.
    IdentityFetched(Result<Vec<String>, AppError>),
    /// The connection saved before this sign-in.
    PreviousConfigRead(Result<Option<PaperclipConfig>, AppError>),
    /// The new connection was saved, or not.
    ConfigWritten(Result<(), AppError>),
    /// The board token was stored in the keychain, or not.
    TokenStored(Result<(), AppError>),
    /// The previous connection was restored as far as possible.
    ConfigRestored,
    /// The revocation of the board token succeeded (`true`) or not.
    RevokeSettled(bool),
}

/// What the caller does next.
pub enum PollAction {
    /// Build the HTTP client.
    PrepareClient,
    /// GET the challenge status at `url` with the query pair `token=<token>`.
    FetchStatus { url: String, token: String },
    /// GET the account identity at `url` with `bearer` as bearer token.
    FetchIdentity { url: String, bearer: String },
    /// Read the saved connection.
    ReadPreviousConfig,
    /// Save `config` as the connection.
    WriteConfig { config: PaperclipConfig },
    /// Store `token` in the keychain.
    StoreToken { token: String },
    /// Save `previous` again, or remove the saved connection where it is
    /// `None`; the outcome does not matter.
    RestoreConfig { previous: Option<PaperclipConfig> },
    /// POST to `url` with `bearer` as bearer token to revoke it.
    Revoke { url: String, bearer: String },
    /// End the poll with `result`, dropping the pending sign-in first where
    /// `clear_pending` holds.
    Finish { clear_pending: bool, result: Result<PaperclipAuthPoll, AppError> },
}

pub enum PollStateView {
    Start,
    AwaitingClient { pending: PendingView },
    AwaitingStatus { pending: PendingView },
    AwaitingIdentity { pending: PendingView },
    AwaitingPrevious { pending: PendingView },
    AwaitingConfigWrite { pending: PendingView, previous: Option<ConfigView> },
    AwaitingTokenStore { pending: PendingView, previous: Option<ConfigView> },
    AwaitingRestore { pending: PendingView, error: AppErrorView },
    AwaitingRevoke { error: AppErrorView, unconfirmed: Option<AppErrorView> },
    Finished,
}

pub enum PollEventView {
    Began { network: Result<(), AppErrorView>, pending: Option<PendingView> },
    ClientPrepared(Result<(), AppErrorView>),
    StatusFetched(Result<Seq<char>, AppErrorView>),
    IdentityFetched(Result<Seq<Seq<char>>, AppErrorView>),
    PreviousConfigRead(Result<Option<ConfigView>, AppErrorView>),
    ConfigWritten(Result<(), AppErrorView>),
    TokenStored(Result<(), AppErrorView>),
    ConfigRestored,
    RevokeSettled(bool),
}

pub enum PollActionView {
    PrepareClient,
    FetchStatus { url: Seq<char>, token: Seq<char> },
    FetchIdentity { url: Seq<char>, bearer: Seq<char> },
    ReadPreviousConfig,
    WriteConfig { config: ConfigView },
    StoreToken { token: Seq<char> },
    RestoreConfig { previous: Option<ConfigView> },
    Revoke { url: Seq<char>, bearer: Seq<char> },
    Finish { clear_pending: bool, result: Result<Seq<char>, AppErrorView> },
}

pub open spec fn unit_view(r: Result<(), AppError>) -> Result<(), AppErrorView> {
    match r {
        Ok(()) => Ok(()),
        Err(e) => Err(e@),
    }
}

pub open spec fn config_opt_view(c: Option<PaperclipConfig>) -> Option<ConfigView> {
    match c {
        Some(c) => Some(c@),
        None => None,
    }
}

pub open spec fn error_opt_view(e: Option<AppError>) -> Option<AppErrorView> {
    match e {
        Some(e) => Some(e@),
        None => None,
    }
}

impl View for PollState {
    type V = PollStateView;

    open spec fn view(&self) -> PollStateView {
        match self {
            PollState::Start => PollStateView::Start,
            PollState::AwaitingClient { pending } => PollStateView::AwaitingClient { pending: pending@ },
            PollState::AwaitingStatus { pending } => PollStateView::AwaitingStatus { pending: pending@ },
            PollState::AwaitingIdentity { pending } => PollStateView::AwaitingIdentity {
                pending: pending@,
            },
            PollState::AwaitingPrevious { pending } => PollStateView::AwaitingPrevious {
                pending: pending@,
            },
            PollState::AwaitingConfigWrite { pending, previous } =>
                PollStateView::AwaitingConfigWrite {
                    pending: pending@,
                    previous: config_opt_view(*previous),
                },
            PollState::AwaitingTokenStore { pending, previous } =>
                PollStateView::AwaitingTokenStore {
                    pending: pending@,
                    previous: config_opt_view(*previous),
                },
            PollState::AwaitingRestore { pending, error } => PollStateView::AwaitingRestore {
                pending: pending@,
                error: error@,
            },
            PollState::AwaitingRevoke { error, unconfirmed } => PollStateView::AwaitingRevoke {
                error: error@,
                unconfirmed: error_opt_view(*unconfirmed),
            },
            PollState::Finished => PollStateView::Finished,
        }
    }
}

impl View for PollEvent {
    type V = PollEventView;

    open spec fn view(&self) -> PollEventView {
        match self {
            PollEvent::Began { network, pending } => PollEventView::Began {
                network: unit_view(*network),
                pending: match pending {
                    Some(p) => Some(p@),
                    None => None,
                },
            },
            PollEvent::ClientPrepared(r) => PollEventView::ClientPrepared(unit_view(*r)),
            PollEvent::StatusFetched(r) => PollEventView::StatusFetched(
                match r {
                    Ok(s) => Ok(s@),
                    Err(e) => Err(e@),
                },
            ),
            PollEvent::IdentityFetched(r) => PollEventView::IdentityFetched(
                match r {
                    Ok(ids) => Ok(ids.deep_view()),
                    Err(e) => Err(e@),
                },
            ),
            PollEvent::PreviousConfigRead(r) => PollEventView::PreviousConfigRead(
                match r {
                    Ok(c) => Ok(config_opt_view(*c)),
                    Err(e) => Err(e@),
                },
            ),
            PollEvent::ConfigWritten(r) => PollEventView::ConfigWritten(unit_view(*r)),
            PollEvent::TokenStored(r) => PollEventView::TokenStored(unit_view(*r)),
            PollEvent::ConfigRestored => PollEventView::ConfigRestored,
            PollEvent::RevokeSettled(b) => PollEventView::RevokeSettled(*b),
        }
    }
}

impl View for PollAction {
    type V = PollActionView;

    open spec fn view(&self) -> PollActionView {
        match self {
            PollAction::PrepareClient => PollActionView::PrepareClient,
            PollAction::FetchStatus { url, token } => PollActionView::FetchStatus {
                url: url@,
                token: token@,
            },
            PollAction::FetchIdentity { url, bearer } => PollActionView::FetchIdentity {
                url: url@,
                bearer: bearer@,
            },
            PollAction::ReadPreviousConfig => PollActionView::ReadPreviousConfig,
            PollAction::WriteConfig { config } => PollActionView::WriteConfig { config: config@ },
            PollAction::StoreToken { token } => PollActionView::StoreToken { token: token@ },
            PollAction::RestoreConfig { previous } => PollActionView::RestoreConfig {
                previous: config_opt_view(*previous),
            },
            PollAction::Revoke { url, bearer } => PollActionView::Revoke {
                url: url@,
                bearer: bearer@,
            },
            PollAction::Finish { clear_pending, result } => PollActionView::Finish {
                clear_pending: *clear_pending,
                result: match result {
                    Ok(p) => Ok(p@),
                    Err(e) => Err(e@),
                },
            },
        }
    }
}

pub open spec fn msg_no_sign_in() -> Seq<char> {
    "No Paperclip sign-in is in progress."@
}

pub open spec fn msg_unknown_status() -> Seq<char> {
    "Paperclip returned an unknown sign-in status."@
}

pub open spec fn msg_company_denied() -> Seq<char> {
    "The approved Paperclip account cannot access the selected company."@
}

pub open spec fn msg_save_unconfirmed() -> Seq<char> {
    "Could not save the Paperclip connection or confirm token revocation; revoke the pending Paperclip key in Paperclip."@
}

pub open spec fn msg_store_unconfirmed() -> Seq<char> {
    "Could not store the Paperclip credential or confirm token revocation; revoke the pending Paperclip key in Paperclip."@
}

/// The event that state `s` waits for.
pub open spec fn poll_accepts(s: PollStateView, e: PollEventView) -> bool {
    match s {
        PollStateView::Start => e is Began,
        PollStateView::AwaitingClient { .. } => e is ClientPrepared,
        PollStateView::AwaitingStatus { .. } => e is StatusFetched,
        PollStateView::AwaitingIdentity { .. } => e is IdentityFetched,
        PollStateView::AwaitingPrevious { .. } => e is PreviousConfigRead,
        PollStateView::AwaitingConfigWrite { .. } => e is ConfigWritten,
        PollStateView::AwaitingTokenStore { .. } => e is TokenStored,
        PollStateView::AwaitingRestore { .. } => e is ConfigRestored,
        PollStateView::AwaitingRevoke { .. } => e is RevokeSettled,
        PollStateView::Finished => false,
    }
}

/// Ends the poll.
pub open spec fn finish(clear_pending: bool, result: Result<Seq<char>, AppErrorView>) -> (
    PollStateView,
    PollActionView,
) {
    (PollStateView::Finished, PollActionView::Finish { clear_pending, result })
}

/// What the poll reports once the revocation after a failure settled.
pub open spec fn settled_error(
    error: AppErrorView,
    unconfirmed: Option<AppErrorView>,
    revoked: bool,
) -> AppErrorView {
    match unconfirmed {
        Some(u) => if revoked {
            error
        } else {
            u
        },
        None => error,
    }
}

/// Revokes the board token of `p` after a failure: the revocation request
/// where the server gives a revocation URL, or the end of the poll as if the
/// revocation had failed.
pub open spec fn revoke_step(
    p: PendingView,
    error: AppErrorView,
    unconfirmed: Option<AppErrorView>,
) -> (PollStateView, PollActionView) {
    match endpoint_outcome(p.api_base_url, "/api/cli-auth/revoke-current"@) {
        Ok(url) => (
            PollStateView::AwaitingRevoke { error, unconfirmed },
            PollActionView::Revoke { url, bearer: p.board_api_token },
        ),
        Err(_) => finish(true, Err(settled_error(error, unconfirmed, false))),
    }
}

/// The step of the poll from state `s` on event `e`: the next state and the
/// next action.
pub open spec fn poll_transition(s: PollStateView, e: PollEventView) -> (
    PollStateView,
    PollActionView,
) {
    match (s, e) {
        (PollStateView::Start, PollEventView::Began { network, pending }) => match network {
            Err(err) => finish(true, Err(err)),
            Ok(()) => match pending {
                None => finish(false, Err(AppErrorView::InvalidArgument(msg_no_sign_in()))),
                Some(p) => (PollStateView::AwaitingClient { pending: p }, PollActionView::PrepareClient),
            },
        },
        (PollStateView::AwaitingClient { pending: p }, PollEventView::ClientPrepared(r)) => match r {
            Err(err) => finish(false, Err(err)),
            Ok(()) => match endpoint_outcome(
                p.api_base_url,
                "/api/cli-auth/challenges/"@ + p.challenge_id,
            ) {
                Err(err) => finish(false, Err(err)),
                Ok(url) => (
                    PollStateView::AwaitingStatus { pending: p },
                    PollActionView::FetchStatus { url, token: p.challenge_token },
                ),
            },
        },
        (PollStateView::AwaitingStatus { pending: p }, PollEventView::StatusFetched(r)) => match r {
            Err(err) => finish(false, Err(err)),
            Ok(status) => if status == "pending"@ {
                finish(false, Ok(status))
            } else if status == "cancelled"@ || status == "expired"@ {
                finish(true, Ok(status))
            } else if status == "approved"@ {
                match endpoint_outcome(p.api_base_url, "/api/cli-auth/me"@) {
                    Err(err) => finish(false, Err(err)),
                    Ok(url) => (
                        PollStateView::AwaitingIdentity { pending: p },
                        PollActionView::FetchIdentity { url, bearer: p.board_api_token },
                    ),
                }
            } else {
                finish(false, Err(AppErrorView::InvalidArgument(msg_unknown_status())))
            },
        },
        (PollStateView::AwaitingIdentity { pending: p }, PollEventView::IdentityFetched(r)) => match r {
            Err(err) => finish(false, Err(err)),
            Ok(company_ids) => if company_ids.contains(p.company_id) {
                (PollStateView::AwaitingPrevious { pending: p }, PollActionView::ReadPreviousConfig)
            } else {
                revoke_step(p, AppErrorView::InvalidArgument(msg_company_denied()), None)
            },
        },
        (PollStateView::AwaitingPrevious { pending: p }, PollEventView::PreviousConfigRead(r)) => match r {
            Err(err) => revoke_step(p, err, None),
            Ok(previous) => (
                PollStateView::AwaitingConfigWrite { pending: p, previous },
                PollActionView::WriteConfig {
                    config: ConfigView { api_base_url: p.api_base_url, company_id: p.company_id },
                },
            ),
        },
        (
            PollStateView::AwaitingConfigWrite { pending: p, previous },
            PollEventView::ConfigWritten(r),
        ) => match r {
            Err(err) => revoke_step(
                p,
                err,
                Some(AppErrorView::Internal(msg_save_unconfirmed())),
            ),
            Ok(()) => (
                PollStateView::AwaitingTokenStore { pending: p, previous },
                PollActionView::StoreToken { token: p.board_api_token },
            ),
        },
        (
            PollStateView::AwaitingTokenStore { pending: p, previous },
            PollEventView::TokenStored(r),
        ) => match r {
            Err(err) => (
                PollStateView::AwaitingRestore { pending: p, error: err },
                PollActionView::RestoreConfig { previous },
            ),
            Ok(()) => finish(true, Ok("approved"@)),
        },
        (PollStateView::AwaitingRestore { pending: p, error }, PollEventView::ConfigRestored) =>
            revoke_step(p, error, Some(AppErrorView::Internal(msg_store_unconfirmed()))),
        (PollStateView::AwaitingRevoke { error, unconfirmed }, PollEventView::RevokeSettled(revoked)) =>
            finish(true, Err(settled_error(error, unconfirmed, revoked))),
        _ => (s, PollActionView::PrepareClient),
    }
}

/// Ends the poll with `result`.
fn finish_poll(clear_pending: bool, result: Result<PaperclipAuthPoll, AppError>) -> (r: (
    PollState,
    PollAction,
))
    ensures
        (r.0@, r.1@) == finish(
            clear_pending,
            match result {
                Ok(p) => Ok(p@),
                Err(e) => Err(e@),
            },
        ),
{
    (PollState::Finished, PollAction::Finish { clear_pending, result })
}

/// The error the poll reports once the revocation after a failure settled.
fn settle(error: AppError, unconfirmed: Option<AppError>, revoked: bool) -> (r: AppError)
    ensures
        r@ == settled_error(error@, error_opt_view(unconfirmed), revoked),
{
    match unconfirmed {
        Some(u) => if revoked {
            error
        } else {
            u
        },
        None => error,
    }
}

/// Starts revoking the board token of `pending` after a failure.
fn begin_revoke(pending: PendingPaperclipAuth, error: AppError, unconfirmed: Option<AppError>) -> (r:
    (PollState, PollAction))
    ensures
        (r.0@, r.1@) == revoke_step(pending@, error@, error_opt_view(unconfirmed)),
{
    match revoke_url(pending.api_base_url.as_str()) {
        Ok(url) => (
            PollState::AwaitingRevoke { error, unconfirmed },
            PollAction::Revoke { url, bearer: pending.board_api_token },
        ),
        Err(_) => finish_poll(true, Err(settle(error, unconfirmed, false))),
    }
}

/// Tells whether `company` is among `ids`.
fn contains_company(ids: &Vec<String>, company: &String) -> (r: bool)
    ensures
        r == ids.deep_view().contains(company@),
{
    let mut i: usize = 0;
    while i < ids.len()
        invariant
            i <= ids.len(),
            forall|k: int| 0 <= k < i ==> ids.deep_view()[k] != company@,
        decreases ids.len() - i,
    {
        assert(ids.deep_view()[i as int] == ids@[i as int]@);
        if ids[i] == *company {
            assert(ids.deep_view()[i as int] == company@);
            return true;
        }
        i = i + 1;
    }
    false
}

/// One step of a poll: from `state`, on the outcome `event` of the last
/// action, the next state and the next action. See `poll_transition`.
pub fn paperclip_login_poll(state: PollState, event: PollEvent) -> (r: (PollState, PollAction))
    requires
        poll_accepts(state@, event@),
    ensures
        (r.0@, r.1@) == poll_transition(state@, event@),
{
    match state {
        PollState::Start => match event {
            PollEvent::Began { network, pending } => match network {
                Err(err) => finish_poll(true, Err(err)),
                Ok(()) => match pending {
                    None => finish_poll(false, Err(invalid("No Paperclip sign-in is in progress."))),
                    Some(p) => (PollState::AwaitingClient { pending: p }, PollAction::PrepareClient),
                },
            },
            _ => (PollState::Finished, PollAction::PrepareClient),
        },
        PollState::AwaitingClient { pending } => match event {
            PollEvent::ClientPrepared(r) => match r {
                Err(err) => finish_poll(false, Err(err)),
                Ok(()) => match challenge_status_url(
                    pending.api_base_url.as_str(),
                    pending.challenge_id.as_str(),
                ) {
                    Err(err) => finish_poll(false, Err(err)),
                    Ok(url) => {
                        let token = pending.challenge_token.clone();
                        (
                            PollState::AwaitingStatus { pending },
                            PollAction::FetchStatus { url, token },
                        )
                    },
                },
            },
            _ => (PollState::Finished, PollAction::PrepareClient),
        },
        PollState::AwaitingStatus { pending } => match event {
            PollEvent::StatusFetched(r) => match r {
                Err(err) => finish_poll(false, Err(err)),
                Ok(status) => {
                    if status == "pending".to_owned() {
                        finish_poll(false, Ok(PaperclipAuthPoll { status }))
                    } else if status == "cancelled".to_owned() || status == "expired".to_owned() {
                        finish_poll(true, Ok(PaperclipAuthPoll { status }))
                    } else if status == "approved".to_owned() {
                        match identity_url(pending.api_base_url.as_str()) {
                            Err(err) => finish_poll(false, Err(err)),
                            Ok(url) => {
                                let bearer = pending.board_api_token.clone();
                                (
                                    PollState::AwaitingIdentity { pending },
                                    PollAction::FetchIdentity { url, bearer },
                                )
                            },
                        }
                    } else {
                        finish_poll(
                            false,
                            Err(invalid("Paperclip returned an unknown sign-in status.")),
                        )
                    }
                },
            },
            _ => (PollState::Finished, PollAction::PrepareClient),
        },
        PollState::AwaitingIdentity { pending } => match event {
            PollEvent::IdentityFetched(r) => match r {
                Err(err) => finish_poll(false, Err(err)),
                Ok(company_ids) => {
                    if contains_company(&company_ids, &pending.company_id) {
                        (PollState::AwaitingPrevious { pending }, PollAction::ReadPreviousConfig)
                    } else {
                        begin_revoke(
                            pending,
                            invalid(
                                "The approved Paperclip account cannot access the selected company.",
                            ),
                            None,
                        )
                    }
                },
            },
            _ => (PollState::Finished, PollAction::PrepareClient),
        },
        PollState::AwaitingPrevious { pending } => match event {
            PollEvent::PreviousConfigRead(r) => match r {
                Err(err) => begin_revoke(pending, err, None),
                Ok(previous) => {
                    let config = PaperclipConfig {
                        api_base_url: pending.api_base_url.clone(),
                        company_id: pending.company_id.clone(),
                    };
                    (
                        PollState::AwaitingConfigWrite { pending, previous },
                        PollAction::WriteConfig { config },
                    )
                },
            },
            _ => (PollState::Finished, PollAction::PrepareClient),
        },
        PollState::AwaitingConfigWrite { pending, previous } => match event {
            PollEvent::ConfigWritten(r) => match r {
                Err(err) => begin_revoke(
                    pending,
                    err,
                    Some(
                        AppError::Internal {
                            message: "Could not save the Paperclip connection or confirm token revocation; revoke the pending Paperclip key in Paperclip.".to_owned(),
                        },
                    ),
                ),
                Ok(()) => {
                    let token = pending.board_api_token.clone();
                    (
                        PollState::AwaitingTokenStore { pending, previous },
                        PollAction::StoreToken { token },
                    )
                },
            },
            _ => (PollState::Finished, PollAction::PrepareClient),
        },
        PollState::AwaitingTokenStore { pending, previous } => match event {
            PollEvent::TokenStored(r) => match r {
                Err(err) => (
                    PollState::AwaitingRestore { pending, error: err },
                    PollAction::RestoreConfig { previous },
                ),
                Ok(()) => finish_poll(true, Ok(PaperclipAuthPoll { status: "approved".to_owned() })),
            },
            _ => (PollState::Finished, PollAction::PrepareClient),
        },
        PollState::AwaitingRestore { pending, error } => match event {
            PollEvent::ConfigRestored => begin_revoke(
                pending,
                error,
                Some(
                    AppError::Internal {
                        message: "Could not store the Paperclip credential or confirm token revocation; revoke the pending Paperclip key in Paperclip.".to_owned(),
                    },
                ),
            ),
            _ => (PollState::Finished, PollAction::PrepareClient),
        },
        PollState::AwaitingRevoke { error, unconfirmed } => match event {
            PollEvent::RevokeSettled(revoked) => finish_poll(
                true,
                Err(settle(error, unconfirmed, revoked)),
            ),
            _ => (PollState::Finished, PollAction::PrepareClient),
        },
        PollState::Finished => (PollState::Finished, PollAction::PrepareClient),
    }
}

// ---------------------------------------------------------------------------
// Cancelling a sign-in
// ---------------------------------------------------------------------------

/// Where a cancellation stands.
pub enum CancelState {
    /// Waits for the network check and the pending sign-in.
    Start,
    /// Waits for the HTTP client.
    AwaitingClient { pending: PendingPaperclipAuth },
    /// Waits for the server's answer to the cancellation.
    AwaitingCancel,
    /// The cancellation is over.
    Finished,
}

/// The outcome of the last action of a cancellation.
pub enum CancelEvent {
    /// The network check, and the sign-in that is pending, if any.
    Began { network: Result<(), AppError>, pending: Option<PendingPaperclipAuth> },
    /// The HTTP client was built, or not.
    ClientPrepared(Result<(), AppError>),
    /// The server accepted the cancellation, or not.
    CancelSent(Result<(), AppError>),
}

/// What the caller of a cancellation does next.
pub enum CancelAction {
    /// Build the HTTP client.
    PrepareClient,
    /// POST to `url` with the challenge `token` in the JSON body.
    SendCancel { url: String, token: String },
    /// End with `result`, dropping the pending sign-in first where
    /// `clear_pending` holds.
    Finish { clear_pending: bool, result: Result<(), AppError> },
}

pub enum CancelStateView {
    Start,
    AwaitingClient { pending: PendingView },
    AwaitingCancel,
    Finished,
}

pub enum CancelEventView {
    Began { network: Result<(), AppErrorView>, pending: Option<PendingView> },
    ClientPrepared(Result<(), AppErrorView>),
    CancelSent(Result<(), AppErrorView>),
}

pub enum CancelActionView {
    PrepareClient,
    SendCancel { url: Seq<char>, token: Seq<char> },
    Finish { clear_pending: bool, result: Result<(), AppErrorView> },
}

impl View for CancelState {
    type V = CancelStateView;

    open spec fn view(&self) -> CancelStateView {
        match self {
            CancelState::Start => CancelStateView::Start,
            CancelState::AwaitingClient { pending } => CancelStateView::AwaitingClient {
                pending: pending@,
            },
            CancelState::AwaitingCancel => CancelStateView::AwaitingCancel,
            CancelState::Finished => CancelStateView::Finished,
        }
    }
}

impl View for CancelEvent {
    type V = CancelEventView;

    open spec fn view(&self) -> CancelEventView {
        match self {
            CancelEvent::Began { network, pending } => CancelEventView::Began {
                network: unit_view(*network),
                pending: match pending {
                    Some(p) => Some(p@),
                    None => None,
                },
            },
            CancelEvent::ClientPrepared(r) => CancelEventView::ClientPrepared(unit_view(*r)),
            CancelEvent::CancelSent(r) => CancelEventView::CancelSent(unit_view(*r)),
        }
    }
}

impl View for CancelAction {
    type V = CancelActionView;

    open spec fn view(&self) -> CancelActionView {
        match self {
            CancelAction::PrepareClient => CancelActionView::PrepareClient,
            CancelAction::SendCancel { url, token } => CancelActionView::SendCancel {
                url: url@,
                token: token@,
            },
            CancelAction::Finish { clear_pending, result } => CancelActionView::Finish {
                clear_pending: *clear_pending,
                result: unit_view(*result),
            },
        }
    }
}

/// The event that cancellation state `s` waits for.
pub open spec fn cancel_accepts(s: CancelStateView, e: CancelEventView) -> bool {
    match s {
        CancelStateView::Start => e is Began,
        CancelStateView::AwaitingClient { .. } => e is ClientPrepared,
        CancelStateView::AwaitingCancel => e is CancelSent,
        CancelStateView::Finished => false,
    }
}

/// Ends a cancellation.
pub open spec fn cancel_finish(clear_pending: bool, result: Result<(), AppErrorView>) -> (
    CancelStateView,
    CancelActionView,
) {
    (CancelStateView::Finished, CancelActionView::Finish { clear_pending, result })
}

/// The step of a cancellation from state `s` on event `e`: nothing pending
/// is success with nothing sent; a failure before the server accepts keeps
/// the sign-in; the sign-in is dropped once the server accepts.
pub open spec fn cancel_transition(s: CancelStateView, e: CancelEventView) -> (
    CancelStateView,
    CancelActionView,
) {
    match (s, e) {
        (CancelStateView::Start, CancelEventView::Began { network, pending }) => match network {
            Err(err) => cancel_finish(false, Err(err)),
            Ok(()) => match pending {
                None => cancel_finish(false, Ok(())),
                Some(p) => (
                    CancelStateView::AwaitingClient { pending: p },
                    CancelActionView::PrepareClient,
                ),
            },
        },
        (CancelStateView::AwaitingClient { pending: p }, CancelEventView::ClientPrepared(r)) => match r {
            Err(err) => cancel_finish(false, Err(err)),
            Ok(()) => match endpoint_outcome(
                p.api_base_url,
                "/api/cli-auth/challenges/"@ + p.challenge_id + "/cancel"@,
            ) {
                Err(err) => cancel_finish(false, Err(err)),
                Ok(url) => (
                    CancelStateView::AwaitingCancel,
                    CancelActionView::SendCancel { url, token: p.challenge_token },
                ),
            },
        },
        (CancelStateView::AwaitingCancel, CancelEventView::CancelSent(r)) => match r {
            Err(err) => cancel_finish(false, Err(err)),
            Ok(()) => cancel_finish(true, Ok(())),
        },
        _ => (s, CancelActionView::PrepareClient),
    }
}

/// Ends a cancellation with `result`.
fn finish_cancel(clear_pending: bool, result: Result<(), AppError>) -> (r: (
    CancelState,
    CancelAction,
))
    ensures
        (r.0@, r.1@) == cancel_finish(clear_pending, unit_view(result)),
{
    (CancelState::Finished, CancelAction::Finish { clear_pending, result })
}

/// One step of a cancellation: from `state`, on the outcome `event` of the
/// last action, the next state and the next action. See
/// `cancel_transition`.
pub fn paperclip_login_cancel(state: CancelState, event: CancelEvent) -> (r: (
    CancelState,
    CancelAction,
))
    requires
        cancel_accepts(state@, event@),
    ensures
        (r.0@, r.1@) == cancel_transition(state@, event@),
{
    match state {
        CancelState::Start => match event {
            CancelEvent::Began { network, pending } => match network {
                Err(err) => finish_cancel(false, Err(err)),
                Ok(()) => match pending {
                    None => finish_cancel(false, Ok(())),
                    Some(p) => (
                        CancelState::AwaitingClient { pending: p },
                        CancelAction::PrepareClient,
                    ),
                },
            },
            _ => (CancelState::Finished, CancelAction::PrepareClient),
        },
        CancelState::AwaitingClient { pending } => match event {
            CancelEvent::ClientPrepared(r) => match r {
                Err(err) => finish_cancel(false, Err(err)),
                Ok(()) => match challenge_cancel_url(
                    pending.api_base_url.as_str(),
                    pending.challenge_id.as_str(),
                ) {
                    Err(err) => finish_cancel(false, Err(err)),
                    Ok(url) => (
                        CancelState::AwaitingCancel,
                        CancelAction::SendCancel { url, token: pending.challenge_token },
                    ),
                },
            },
            _ => (CancelState::Finished, CancelAction::PrepareClient),
        },
        CancelState::AwaitingCancel => match event {
            CancelEvent::CancelSent(r) => match r {
                Err(err) => finish_cancel(false, Err(err)),
                Ok(()) => finish_cancel(true, Ok(())),
            },
            _ => (CancelState::Finished, CancelAction::PrepareClient),
        },
        CancelState::Finished => (CancelState::Finished, CancelAction::PrepareClient),
    }
}

/// A cancellation ends within three steps, and drops the pending sign-in
/// only on the step where the server accepted the cancellation.
pub proof fn lemma_cancel_clears_only_when_accepted(s: CancelStateView, e: CancelEventView)
    requires
        cancel_accepts(s, e),
    ensures
        cancel_transition(s, e).0 is Finished <==> cancel_transition(s, e).1 is Finish,
        s is AwaitingCancel ==> cancel_transition(s, e).0 is Finished,
        cancel_transition(s, e).1 is Finish && cancel_transition(s, e).1->Finish_clear_pending ==> (
        s is AwaitingCancel && e is CancelSent && e->CancelSent_0 is Ok),
        cancel_transition(s, e).1 is SendCancel ==> s is AwaitingClient
            && cancel_transition(s, e).1->SendCancel_token
            == s->AwaitingClient_pending.challenge_token,
{
}

// ---------------------------------------------------------------------------
// Laws of the poll
// ---------------------------------------------------------------------------

/// How far a state is from the end of the poll.
pub open spec fn poll_rank(s: PollStateView) -> nat {
    match s {
        PollStateView::Start => 9,
        PollStateView::AwaitingClient { .. } => 8,
        PollStateView::AwaitingStatus { .. } => 7,
        PollStateView::AwaitingIdentity { .. } => 6,
        PollStateView::AwaitingPrevious { .. } => 5,
        PollStateView::AwaitingConfigWrite { .. } => 4,
        PollStateView::AwaitingTokenStore { .. } => 3,
        PollStateView::AwaitingRestore { .. } => 2,
        PollStateView::AwaitingRevoke { .. } => 1,
        PollStateView::Finished => 0,
    }
}

/// Every step moves the poll closer to its end, so a poll takes at most nine
/// steps; it has ended exactly when the step's action is `Finish`.
pub proof fn lemma_poll_terminates(s: PollStateView, e: PollEventView)
    requires
        poll_accepts(s, e),
    ensures
        poll_rank(poll_transition(s, e).0) < poll_rank(s),
        poll_transition(s, e).0 is Finished <==> poll_transition(s, e).1 is Finish,
{
}

/// A poll reports `approved` only on the step where the keychain stored the
/// board token, after the connection was saved.
pub proof fn lemma_poll_approved_only_when_stored(s: PollStateView, e: PollEventView)
    requires
        poll_accepts(s, e),
        poll_transition(s, e).1 == finish(true, Ok("approved"@)).1 || poll_transition(s, e).1
            == finish(false, Ok("approved"@)).1,
    ensures
        s is AwaitingTokenStore,
        e is TokenStored && e->TokenStored_0 is Ok,
{
    lemma_status_words_differ();
}

/// The status words that Paperclip answers with differ from each other.
pub proof fn lemma_status_words_differ()
    ensures
        "pending"@ != "approved"@,
        "cancelled"@ != "approved"@,
        "expired"@ != "approved"@,
        "cancelled"@ != "pending"@,
        "expired"@ != "pending"@,
{
    reveal_strlit("approved");
    reveal_strlit("pending");
    reveal_strlit("cancelled");
    reveal_strlit("expired");
    assert("pending"@[0] != "approved"@[0]);
    assert("cancelled"@[0] != "approved"@[0]);
    assert("expired"@[0] != "approved"@[0]);
    assert("cancelled"@[0] != "pending"@[0]);
    assert("expired"@[0] != "pending"@[0]);
}

/// The connection that a step asks to save.
pub open spec fn saved_config(p: PendingView) -> ConfigView {
    ConfigView { api_base_url: p.api_base_url, company_id: p.company_id }
}

/// The account of `e` can access the company of `s`.
pub open spec fn company_confirmed(s: PollStateView, e: PollEventView) -> bool {
    &&& s is AwaitingIdentity
    &&& e matches PollEventView::IdentityFetched(Ok(ids))
    &&& ids.contains(s->AwaitingIdentity_pending.company_id)
}

/// The connection is read, saved and given its token only along the approved
/// path: the previous connection is read only for an account that can access
/// the selected company, the sign-in's own server and company are what is
/// saved, and its board token is stored only once that save succeeded.
pub proof fn lemma_poll_saves_only_checked_sign_in(s: PollStateView, e: PollEventView)
    requires
        poll_accepts(s, e),
    ensures
        poll_transition(s, e).1 is ReadPreviousConfig ==> company_confirmed(s, e),
        poll_transition(s, e).1 is WriteConfig ==> s is AwaitingPrevious && e is PreviousConfigRead
            && e->PreviousConfigRead_0 is Ok && poll_transition(s, e).1->WriteConfig_config == saved_config(
            s->AwaitingPrevious_pending,
        ),
        poll_transition(s, e).1 is StoreToken ==> s is AwaitingConfigWrite && e is ConfigWritten
            && e->ConfigWritten_0 is Ok && poll_transition(s, e).1->StoreToken_token
            == s->AwaitingConfigWrite_pending.board_api_token,
{
}

/// Once the account was checked, the poll drops the pending sign-in
/// whenever it ends, whatever the outcome.
pub proof fn lemma_poll_clears_after_approval(s: PollStateView, e: PollEventView)
    requires
        poll_accepts(s, e),
        s is AwaitingPrevious || s is AwaitingConfigWrite || s is AwaitingTokenStore
            || s is AwaitingRestore || s is AwaitingRevoke,
    ensures
        poll_transition(s, e).1 is Finish ==> poll_transition(s, e).1->Finish_clear_pending,
{
}

/// The sign-in that state `s` carries along.
pub open spec fn carried_sign_in(s: PollStateView) -> PendingView {
    match s {
        PollStateView::AwaitingIdentity { pending } => pending,
        PollStateView::AwaitingPrevious { pending } => pending,
        PollStateView::AwaitingConfigWrite { pending, .. } => pending,
        PollStateView::AwaitingTokenStore { pending, .. } => pending,
        PollStateView::AwaitingRestore { pending, .. } => pending,
        PollStateView::AwaitingClient { pending } => pending,
        PollStateView::AwaitingStatus { pending } => pending,
        _ => arbitrary(),
    }
}

/// Event `e` in state `s` means an approved sign-in cannot be kept: the
/// account cannot access the company, the saved connection cannot be read
/// or written, or the previous connection was restored after the keychain
/// refused the token.
pub open spec fn approved_sign_in_fails(s: PollStateView, e: PollEventView) -> bool {
    ||| (s is AwaitingIdentity && e is IdentityFetched && e->IdentityFetched_0 is Ok
        && !e->IdentityFetched_0->Ok_0.contains(s->AwaitingIdentity_pending.company_id))
    ||| (s is AwaitingPrevious && e is PreviousConfigRead && e->PreviousConfigRead_0 is Err)
    ||| (s is AwaitingConfigWrite && e is ConfigWritten && e->ConfigWritten_0 is Err)
    ||| s is AwaitingRestore
}

/// When an approved sign-in cannot be kept, the next step revokes its board
/// token, unless the server gives no revocation URL, in which case the poll
/// ends with an error and drops the pending sign-in.
pub proof fn lemma_poll_failure_revokes(s: PollStateView, e: PollEventView)
    requires
        poll_accepts(s, e),
        approved_sign_in_fails(s, e),
    ensures
        endpoint_outcome(carried_sign_in(s).api_base_url, "/api/cli-auth/revoke-current"@) is Ok
            ==> poll_transition(s, e).1 is Revoke && poll_transition(s, e).1->Revoke_url
            == endpoint_outcome(
            carried_sign_in(s).api_base_url,
            "/api/cli-auth/revoke-current"@,
        )->Ok_0 && poll_transition(s, e).1->Revoke_bearer == carried_sign_in(s).board_api_token,
        endpoint_outcome(carried_sign_in(s).api_base_url, "/api/cli-auth/revoke-current"@) is Err
            ==> poll_transition(s, e).1 is Finish && poll_transition(s, e).1->Finish_clear_pending
            && poll_transition(s, e).1->Finish_result is Err,
{
}

/// The challenge status decides the poll: `pending` keeps the sign-in,
/// `cancelled` and `expired` end it and drop it, an unknown status is an
/// error that keeps it; a failed network check drops it.
pub proof fn lemma_poll_status_outcomes(s: PollStateView, status: Seq<char>, e: PollEventView)
    requires
        poll_accepts(s, e),
    ensures
        s is AwaitingStatus && e == PollEventView::StatusFetched(Ok(status)) && status
            == "pending"@ ==> poll_transition(s, e).1 == finish(false, Ok(status)).1,
        s is AwaitingStatus && e == PollEventView::StatusFetched(Ok(status)) && (status
            == "cancelled"@ || status == "expired"@) ==> poll_transition(s, e).1 == finish(
            true,
            Ok(status),
        ).1,
        s is AwaitingStatus && e == PollEventView::StatusFetched(Ok(status)) && status
            != "pending"@ && status != "cancelled"@ && status != "expired"@ && status
            != "approved"@ ==> poll_transition(s, e).1 == finish(
            false,
            Err(AppErrorView::InvalidArgument(msg_unknown_status())),
        ).1,
        s is Start && e is Began && e->Began_network is Err ==> poll_transition(s, e).1 == finish(
            true,
            Err(e->Began_network->Err_0),
        ).1,
{
    lemma_status_words_differ();
}

// ---------------------------------------------------------------------------
// Laws of a sign-in as a whole
// ---------------------------------------------------------------------------

/// Challenges `c1` and `c2` agree in everything but the board token.
pub open spec fn differ_only_in_board_token(c1: ChallengeView, c2: ChallengeView) -> bool {
    &&& c1.id == c2.id
    &&& c1.token == c2.token
    &&& c1.approval_path == c2.approval_path
    &&& c1.expires_at == c2.expires_at
    &&& c1.suggested_poll_interval_ms == c2.suggested_poll_interval_ms
}

/// The board token never reaches the caller of a sign-in start: two
/// challenges that differ only in their (well-prefixed) board tokens are
/// accepted or refused alike, and give the same start value.
pub proof fn lemma_start_hides_board_token(
    base: Seq<char>,
    company: Seq<char>,
    c1: ChallengeView,
    c2: ChallengeView,
)
    requires
        differ_only_in_board_token(c1, c2),
        has_prefix(c1.board_api_token, "pcp_board_"@),
        has_prefix(c2.board_api_token, "pcp_board_"@),
    ensures
        challenge_outcome(base, company, c1) is Ok <==> challenge_outcome(base, company, c2) is Ok,
        challenge_outcome(base, company, c1) is Ok ==> challenge_outcome(base, company, c1)->Ok_0.1
            == challenge_outcome(base, company, c2)->Ok_0.1,
        challenge_outcome(base, company, c1) is Err ==> challenge_outcome(base, company, c1)
            == challenge_outcome(base, company, c2),
{
}

/// The states and actions of a poll that meets `events` from `s`: the last
/// state, and one action per event.
pub open spec fn poll_run(s: PollStateView, events: Seq<PollEventView>) -> (
    PollStateView,
    Seq<PollActionView>,
)
    decreases events.len(),
{
    if events.len() == 0 {
        (s, Seq::empty())
    } else {
        let step = poll_transition(s, events[0]);
        let rest = poll_run(step.0, events.drop_first());
        (rest.0, seq![step.1] + rest.1)
    }
}

/// Each of `events` is the one the poll waits for when it comes.
pub open spec fn run_accepted(s: PollStateView, events: Seq<PollEventView>) -> bool
    decreases events.len(),
{
    events.len() == 0 || (poll_accepts(s, events[0]) && run_accepted(
        poll_transition(s, events[0]).0,
        events.drop_first(),
    ))
}

/// A final action reports one of the four statuses, and drops the pending
/// sign-in exactly when the status is not `pending`.
pub open spec fn reports_known_status(a: PollActionView) -> bool {
    a matches PollActionView::Finish { clear_pending, result: Ok(status) } ==> ({
        ||| status == "pending"@ && !clear_pending
        ||| (status == "cancelled"@ || status == "expired"@ || status == "approved"@)
            && clear_pending
    })
}

/// Every step that ends the poll reports a known status, if any.
pub proof fn lemma_poll_finish_reports_known_status(s: PollStateView, e: PollEventView)
    requires
        poll_accepts(s, e),
    ensures
        reports_known_status(poll_transition(s, e).1),
{
    lemma_status_words_differ();
}

/// A whole poll, from any state to its end: it takes one action per event,
/// only its last action ends it (so the pending sign-in is only ever kept or
/// dropped, never changed), that action reports a known status with the
/// pending sign-in dropped exactly when the status is not `pending`, and a
/// keychain that stored the board token makes it report `approved`.
pub proof fn lemma_poll_run(s: PollStateView, events: Seq<PollEventView>)
    requires
        events.len() > 0,
        run_accepted(s, events),
        poll_run(s, events).0 is Finished,
    ensures
        poll_run(s, events).1.len() == events.len(),
        poll_run(s, events).1.last() is Finish,
        forall|i: int| 0 <= i < events.len() - 1 ==> !(#[trigger] poll_run(s, events).1[i] is Finish),
        reports_known_status(poll_run(s, events).1.last()),
        (exists|i: int|
            0 <= i < events.len() && #[trigger] events[i] == PollEventView::TokenStored(Ok(())))
            ==> poll_run(s, events).1.last() == finish(true, Ok("approved"@)).1,
    decreases events.len(),
{
    let step = poll_transition(s, events[0]);
    let tail = events.drop_first();
    lemma_poll_terminates(s, events[0]);
    lemma_poll_finish_reports_known_status(s, events[0]);
    if tail.len() == 0 {
        assert(poll_run(step.0, tail).1 =~= Seq::<PollActionView>::empty());
        assert(poll_run(s, events).1 =~= seq![step.1]);
        if exists|i: int|
            0 <= i < events.len() && #[trigger] events[i] == PollEventView::TokenStored(Ok(())) {
            assert(events[0] == PollEventView::TokenStored(Ok(())));
        }
    } else {
        assert(run_accepted(step.0, tail));
        assert(poll_accepts(step.0, tail[0]));
        lemma_poll_run(step.0, tail);
        let rest = poll_run(step.0, tail);
        assert(poll_run(s, events).1 == seq![step.1] + rest.1);
        assert(poll_run(s, events).1.last() == rest.1.last());
        assert forall|i: int| 0 <= i < events.len() - 1 implies !(#[trigger] poll_run(
            s,
            events,
        ).1[i] is Finish) by {
            if i > 0 {
                assert(poll_run(s, events).1[i] == rest.1[i - 1]);
            }
        }
        if exists|i: int|
            0 <= i < events.len() && #[trigger] events[i] == PollEventView::TokenStored(Ok(())) {
            let i = choose|i: int|
                0 <= i < events.len() && #[trigger] events[i] == PollEventView::TokenStored(Ok(()));
            if i == 0 {
                assert(step.0 is Finished);
            } else {
                assert(tail[i - 1] == events[i]);
            }
        }
    }
}

/// An account that can access the selected company lets the sign-in go on:
/// the next step reads the saved connection, carrying the same sign-in; and
/// the poll reads the saved connection only for such an account.
pub proof fn lemma_poll_confirmed_company_goes_on(s: PollStateView, e: PollEventView)
    requires
        poll_accepts(s, e),
    ensures
        company_confirmed(s, e) ==> poll_transition(s, e).1 is ReadPreviousConfig
            && poll_transition(s, e).0 is AwaitingPrevious
            && poll_transition(s, e).0->AwaitingPrevious_pending == s->AwaitingIdentity_pending,
        poll_transition(s, e).1 is ReadPreviousConfig <==> company_confirmed(s, e),
{
}

/// A cancellation reports success only when nothing was pending or the
/// server accepted it; a failed network check, client, endpoint or request
/// is reported as that same error, and keeps the sign-in.
pub proof fn lemma_cancel_reports_success_only_when_done(s: CancelStateView, e: CancelEventView)
    requires
        cancel_accepts(s, e),
    ensures
        cancel_transition(s, e).1 is Finish && cancel_transition(s, e).1->Finish_result is Ok ==> ((
        s is Start && e->Began_network is Ok && e->Began_pending is None) || (s is AwaitingCancel
            && e->CancelSent_0 is Ok)),
        s is Start && e->Began_network is Err ==> cancel_transition(s, e).1 is Finish
            && !cancel_transition(s, e).1->Finish_clear_pending && cancel_transition(s, e).1->Finish_result
            == Err::<(), AppErrorView>(e->Began_network->Err_0),
        s is AwaitingClient && e->ClientPrepared_0 is Err ==> cancel_transition(s, e).1 is Finish
            && !cancel_transition(s, e).1->Finish_clear_pending && cancel_transition(s, e).1->Finish_result
            == Err::<(), AppErrorView>(e->ClientPrepared_0->Err_0),
        s is AwaitingCancel && e->CancelSent_0 is Err ==> cancel_transition(s, e).1 is Finish
            && !cancel_transition(s, e).1->Finish_clear_pending && cancel_transition(s, e).1->Finish_result
            == Err::<(), AppErrorView>(e->CancelSent_0->Err_0),
{
}

} // verus!
