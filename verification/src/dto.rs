//! The values the bridge exchanges with its caller and with Paperclip. Each
//! holds only the fields the bridge uses, so anything else a response carries
//! (adapter configuration, environment secrets) is dropped when it is decoded.
use vstd::prelude::*;

verus! {

/// The saved connection: a normalised server origin and company UUID.
pub struct PaperclipConfig {
    pub api_base_url: String,
    pub company_id: String,
}

/// `PaperclipConfig` with its strings taken as character sequences.
pub struct ConfigView {
    pub api_base_url: Seq<char>,
    pub company_id: Seq<char>,
}

impl View for PaperclipConfig {
    type V = ConfigView;

    open spec fn view(&self) -> ConfigView {
        ConfigView { api_base_url: self.api_base_url@, company_id: self.company_id@ }
    }
}

/// What the caller is told of the connection.
pub struct PaperclipStatus {
    pub configured: bool,
    pub api_base_url: Option<String>,
    pub company_id: Option<String>,
}

/// `PaperclipStatus` with its strings taken as character sequences.
pub struct StatusView {
    pub configured: bool,
    pub api_base_url: Option<Seq<char>>,
    pub company_id: Option<Seq<char>>,
}

impl View for PaperclipStatus {
    type V = StatusView;

    open spec fn view(&self) -> StatusView {
        StatusView {
            configured: self.configured,
            api_base_url: self.api_base_url.deep_view(),
            company_id: self.company_id.deep_view(),
        }
    }
}

/// What the caller is told when a sign-in starts: where the user approves it,
/// when the challenge expires, and how often to poll.
pub struct PaperclipLoginStart {
    pub approval_url: String,
    pub expires_at: String,
    pub poll_interval_ms: u64,
}

/// `PaperclipLoginStart` with its strings taken as character sequences.
pub struct LoginStartView {
    pub approval_url: Seq<char>,
    pub expires_at: Seq<char>,
    pub poll_interval_ms: u64,
}

impl View for PaperclipLoginStart {
    type V = LoginStartView;

    open spec fn view(&self) -> LoginStartView {
        LoginStartView {
            approval_url: self.approval_url@,
            expires_at: self.expires_at@,
            poll_interval_ms: self.poll_interval_ms,
        }
    }
}

/// The state of a sign-in, as a poll reports it.
pub struct PaperclipAuthPoll {
    pub status: String,
}

impl View for PaperclipAuthPoll {
    type V = Seq<char>;

    open spec fn view(&self) -> Seq<char> {
        self.status@
    }
}

/// One agent of the company roster.
pub struct PaperclipAgentSummary {
    pub id: String,
    pub name: String,
    pub title: Option<String>,
    pub role: Option<String>,
    pub adapter_type: Option<String>,
    pub status: Option<String>,
}

/// One project of the company.
pub struct PaperclipProjectSummary {
    pub id: String,
    pub name: String,
    pub status: Option<String>,
    pub url_key: Option<String>,
}

/// The sign-in challenge that Paperclip issues.
pub struct CliAuthChallenge {
    pub id: String,
    pub token: String,
    pub board_api_token: String,
    pub approval_path: String,
    pub expires_at: String,
    pub suggested_poll_interval_ms: Option<u64>,
}

/// `CliAuthChallenge` with its strings taken as character sequences.
pub struct ChallengeView {
    pub id: Seq<char>,
    pub token: Seq<char>,
    pub board_api_token: Seq<char>,
    pub approval_path: Seq<char>,
    pub expires_at: Seq<char>,
    pub suggested_poll_interval_ms: Option<u64>,
}

impl View for CliAuthChallenge {
    type V = ChallengeView;

    open spec fn view(&self) -> ChallengeView {
        ChallengeView {
            id: self.id@,
            token: self.token@,
            board_api_token: self.board_api_token@,
            approval_path: self.approval_path@,
            expires_at: self.expires_at@,
            suggested_poll_interval_ms: self.suggested_poll_interval_ms,
        }
    }
}

/// A sign-in that waits for the user's approval, with the challenge secrets
/// that only the caller's memory holds.
pub struct PendingPaperclipAuth {
    pub api_base_url: String,
    pub company_id: String,
    pub challenge_id: String,
    pub challenge_token: String,
    pub board_api_token: String,
}

/// `PendingPaperclipAuth` with its strings taken as character sequences.
pub struct PendingView {
    pub api_base_url: Seq<char>,
    pub company_id: Seq<char>,
    pub challenge_id: Seq<char>,
    pub challenge_token: Seq<char>,
    pub board_api_token: Seq<char>,
}

impl View for PendingPaperclipAuth {
    type V = PendingView;

    open spec fn view(&self) -> PendingView {
        PendingView {
            api_base_url: self.api_base_url@,
            company_id: self.company_id@,
            challenge_id: self.challenge_id@,
            challenge_token: self.challenge_token@,
            board_api_token: self.board_api_token@,
        }
    }
}

impl PendingPaperclipAuth {
    /// A copy of this sign-in.
    pub fn duplicate(&self) -> (r: PendingPaperclipAuth)
        ensures
            r@ == self@,
    {
        PendingPaperclipAuth {
            api_base_url: self.api_base_url.clone(),
            company_id: self.company_id.clone(),
            challenge_id: self.challenge_id.clone(),
            challenge_token: self.challenge_token.clone(),
            board_api_token: self.board_api_token.clone(),
        }
    }
}

} // verus!
