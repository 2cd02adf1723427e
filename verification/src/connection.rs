//! Normalisation of the connection settings a user enters, and the URLs of the
//! Paperclip endpoints that the bridge calls.
use crate::uuid_form::{
    is_hyphen_position, is_hyphenated_uuid, is_lower_hex_digit, lemma_hyphenate_reads_back,
    lemma_uuid_digits_are_lowercase, uuid_digits, uuid_hyphenated_form,
};
use crate::error::{invalid, string_result_view, AppError, AppErrorView};
use crate::text::{
    has_prefix, is_unicode_whitespace, lemma_trim_of_unpadded, lemma_trim_of_whitespace_free,
    trim, trim_spec, trim_trailing_slashes, trim_trailing_slashes_spec,
};
use vstd::prelude::*;
use vstd::string::*;

verus! {

/// The parts of a parsed URL that the bridge inspects.
pub struct UrlParts {
    pub scheme: String,
    pub host: Option<String>,
    pub port: Option<u16>,
    pub username: String,
    pub password: Option<String>,
    pub path: String,
    pub query: Option<String>,
    pub fragment: Option<String>,
}

/// `UrlParts` with its strings taken as character sequences.
pub struct UrlPartsView {
    pub scheme: Seq<char>,
    pub host: Option<Seq<char>>,
    pub port: Option<u16>,
    pub username: Seq<char>,
    pub password: Option<Seq<char>>,
    pub path: Seq<char>,
    pub query: Option<Seq<char>>,
    pub fragment: Option<Seq<char>>,
}

impl View for UrlParts {
    type V = UrlPartsView;

    open spec fn view(&self) -> UrlPartsView {
        UrlPartsView {
            scheme: self.scheme@,
            host: self.host.deep_view(),
            port: self.port,
            username: self.username@,
            password: self.password.deep_view(),
            path: self.path@,
            query: self.query.deep_view(),
            fragment: self.fragment.deep_view(),
        }
    }
}

/// What `url::Url::parse` makes of `input`: its scheme, host, port (`None`
/// for the scheme's default port), user name, password, path, query and
/// fragment as the `url` crate reports them, or
/// `None` where it refuses the input.
pub uninterp spec fn url_parse_spec(input: Seq<char>) -> Option<UrlPartsView>;

/// The name/value pairs that `url::Url::query_pairs` decodes from the query of
/// `url::Url::parse(input)`, in order, or `None` where the parse fails.
pub uninterp spec fn url_query_pairs_spec(input: Seq<char>) -> Option<Seq<(Seq<char>, Seq<char>)>>;

/// The serialization of `url::Url::parse(input)` after `set_path("")`, or
/// `None` where the parse fails.
pub uninterp spec fn url_without_path_spec(input: Seq<char>) -> Option<Seq<char>>;

/// The serialization of `url::Url::parse(base)` joined with `reference` by
/// `url::Url::join`, or `None` where either step fails.
pub uninterp spec fn url_join_spec(base: Seq<char>, reference: Seq<char>) -> Option<Seq<char>>;


/// Parses `input` with `url::Url::parse` and reads the parts the bridge checks.
/// Trusted: the parts are what the `url` crate computes for `input`, named by
/// `url_parse_spec`.
#[verifier::external_body]
fn parse_url(input: &str) -> (r: Option<UrlParts>)
    ensures
        r matches Some(p) ==> url_parse_spec(input@) == Some(p@),
        r is None ==> url_parse_spec(input@) is None,
{
    match url::Url::parse(input) {
        Ok(u) => Some(
            UrlParts {
                scheme: String::from(u.scheme()),
                host: u.host_str().map(String::from),
                port: u.port(),
                username: String::from(u.username()),
                password: u.password().map(String::from),
                path: String::from(u.path()),
                query: u.query().map(String::from),
                fragment: u.fragment().map(String::from),
            },
        ),
        Err(_) => None,
    }
}

/// Parses `input` with `url::Url::parse` and decodes its query with
/// `url::Url::query_pairs`. Trusted: the pairs are named by
/// `url_query_pairs_spec`, and they are present exactly where the parse that
/// `url_parse_spec` names succeeds, since both come from the same parse.
#[verifier::external_body]
fn parse_query_pairs(input: &str) -> (r: Option<Vec<(String, String)>>)
    ensures
        r.deep_view() == url_query_pairs_spec(input@),
        r is Some <==> url_parse_spec(input@) is Some,
{
    match url::Url::parse(input) {
        Ok(u) => Some(u.query_pairs().into_owned().collect()),
        Err(_) => None,
    }
}

/// The parts of the origin of `p` read back on their own: the same scheme,
/// host, port and empty credentials, with the path `/` and no query or
/// fragment.
pub open spec fn origin_parts(p: UrlPartsView) -> UrlPartsView {
    UrlPartsView {
        scheme: p.scheme,
        host: p.host,
        port: p.port,
        username: p.username,
        password: p.password,
        path: "/"@,
        query: None,
        fragment: None,
    }
}

/// Parses `input` with `url::Url::parse`, clears its path with
/// `url::Url::set_path("")` and serializes it with `url::Url::as_str`.
/// Trusted: the result is named by `url_without_path_spec`, and it is present
/// exactly where the parse that `url_parse_spec` names succeeds. For a bare
/// HTTPS origin the serialization is `https://host[:port]/`: it holds no
/// whitespace, and without its trailing `/` it parses back to the same
/// origin, whose serialization is the same again.
#[verifier::external_body]
fn url_without_path(input: &str) -> (r: Option<String>)
    ensures
        r.deep_view() == url_without_path_spec(input@),
        r is Some <==> url_parse_spec(input@) is Some,
        r matches Some(s) ==> (url_parse_spec(input@) is Some && is_bare_https_origin(
            url_parse_spec(input@)->0,
        ) ==> origin_reads_back(url_parse_spec(input@)->0, s@)),
{
    match url::Url::parse(input) {
        Ok(mut u) => {
            u.set_path("");
            Some(String::from(u.as_str()))
        },
        Err(_) => None,
    }
}

/// Parses `base` with `url::Url::parse`, resolves `reference` against it with
/// `url::Url::join` and serializes the result. Trusted: the result is named by
/// `url_join_spec`.
#[verifier::external_body]
fn join_url(base: &str, reference: &str) -> (r: Option<String>)
    ensures
        r.deep_view() == url_join_spec(base@, reference@),
{
    match url::Url::parse(base) {
        Ok(u) => match u.join(reference) {
            Ok(joined) => Some(String::from(joined)),
            Err(_) => None,
        },
        Err(_) => None,
    }
}

/// Reads a UUID from `input` with `uuid::Uuid::parse_str` and writes it with
/// `hyphenated().to_string()`. Trusted: the `uuid` crate accepts exactly the
/// simple, hyphenated, braced and URN forms (hexadecimal digits in either
/// case) and writes the hyphenated form in lowercase, as
/// `uuid_hyphenated_form` states.
#[verifier::external_body]
fn uuid_hyphenated(input: &str) -> (r: Option<String>)
    ensures
        r.deep_view() == uuid_hyphenated_form(input@),
{
    match uuid::Uuid::parse_str(input) {
        Ok(id) => Some(id.hyphenated().to_string()),
        Err(_) => None,
    }
}

pub open spec fn msg_bad_url() -> Seq<char> {
    "Enter a valid HTTPS Paperclip server URL."@
}

pub open spec fn msg_not_origin() -> Seq<char> {
    "Paperclip must use an HTTPS origin without credentials, path, query, or fragment."@
}

pub open spec fn msg_bad_company() -> Seq<char> {
    "Enter the Paperclip company UUID."@
}

pub open spec fn msg_bad_endpoint() -> Seq<char> {
    "Paperclip endpoint URL is invalid."@
}

/// A URL that names an HTTPS origin alone: a host, no credentials, no path
/// beyond `/`, no query and no fragment.
pub open spec fn is_bare_https_origin(p: UrlPartsView) -> bool {
    &&& p.scheme == "https"@
    &&& p.host is Some
    &&& p.username.len() == 0
    &&& p.password is None
    &&& (p.path == "/"@ || p.path.len() == 0)
    &&& p.query is None
    &&& p.fragment is None
}

/// The decimal digit `d`.
pub open spec fn decimal_digit(d: int) -> char {
    if d == 0 {
        '0'
    } else if d == 1 {
        '1'
    } else if d == 2 {
        '2'
    } else if d == 3 {
        '3'
    } else if d == 4 {
        '4'
    } else if d == 5 {
        '5'
    } else if d == 6 {
        '6'
    } else if d == 7 {
        '7'
    } else if d == 8 {
        '8'
    } else {
        '9'
    }
}

/// `n` written in decimal, without leading zeros.
pub open spec fn decimal(n: nat) -> Seq<char>
    decreases n,
{
    if n < 10 {
        seq![decimal_digit(n as int)]
    } else {
        decimal(n / 10) + seq![decimal_digit((n % 10) as int)]
    }
}

/// The port part of an origin: `:` and the port in decimal, or nothing for
/// the scheme's default port.
pub open spec fn port_suffix(port: Option<u16>) -> Seq<char> {
    match port {
        Some(n) => ":"@ + decimal(n as nat),
        None => Seq::empty(),
    }
}

/// The origin of the HTTPS URL `p` written out: `https://host[:port]`.
pub open spec fn origin_serialization(p: UrlPartsView) -> Seq<char> {
    "https://"@ + p.host->0 + port_suffix(p.port)
}

/// A character that may stand in the host of an HTTPS URL as the `url`
/// crate writes it: no `/`, `?`, `#`, `@` and no whitespace.
pub open spec fn is_plain_host_char(c: char) -> bool {
    c != '/' && c != '?' && c != '#' && c != '@' && !is_unicode_whitespace(c)
}

/// The serialization `s` of the bare HTTPS origin `p` is `https://`, its
/// non-empty host made of plain host characters, its non-default port and
/// `/`; without that `/` it parses back to the origin of `p` and serializes
/// to `s` again.
pub open spec fn origin_reads_back(p: UrlPartsView, s: Seq<char>) -> bool {
    &&& p.host->0.len() > 0
    &&& forall|i: int| 0 <= i < p.host->0.len() ==> is_plain_host_char(#[trigger] p.host->0[i])
    &&& s == origin_serialization(p) + "/"@
    &&& url_parse_spec(origin_serialization(p)) == Some(origin_parts(p))
    &&& url_without_path_spec(origin_serialization(p)) == Some(s)
}

/// A normalised server origin: `https://`, then no `/`; no `?`, `#`, `@`
/// or whitespace anywhere.
pub open spec fn is_clean_origin(b: Seq<char>) -> bool {
    &&& b.len() > 8
    &&& has_prefix(b, "https://"@)
    &&& forall|i: int|
        0 <= i < b.len() ==> #[trigger] b[i] != '?' && b[i] != '#' && b[i] != '@'
            && !is_unicode_whitespace(b[i])
    &&& forall|i: int| 8 <= i < b.len() ==> #[trigger] b[i] != '/'
}

/// The decimal digits of `n` are digits.
pub proof fn lemma_decimal_digits(n: nat)
    ensures
        decimal(n).len() > 0,
        forall|i: int| 0 <= i < decimal(n).len() ==> '0' <= #[trigger] decimal(n)[i] <= '9',
    decreases n,
{
    if n >= 10 {
        lemma_decimal_digits(n / 10);
        let d = decimal(n / 10);
        assert forall|i: int| 0 <= i < decimal(n).len() implies '0' <= #[trigger] decimal(n)[i]
            <= '9' by {
            if i < d.len() {
                assert(decimal(n)[i] == d[i]);
            }
        }
    }
}

/// A written-out origin whose host is non-empty and made of plain host
/// characters is a clean origin, and does not end with `/`.
pub proof fn lemma_origin_serialization_is_clean(p: UrlPartsView)
    requires
        p.host is Some,
        p.host->0.len() > 0,
        forall|i: int| 0 <= i < p.host->0.len() ==> is_plain_host_char(#[trigger] p.host->0[i]),
    ensures
        is_clean_origin(origin_serialization(p)),
        origin_serialization(p).last() != '/',
{
    reveal_strlit("https://");
    reveal_strlit(":");
    let h = p.host->0;
    let suffix = port_suffix(p.port);
    let b = origin_serialization(p);
    if let Some(n) = p.port {
        lemma_decimal_digits(n as nat);
    }
    assert forall|i: int| 0 <= i < suffix.len() implies #[trigger] suffix[i] == ':' || ('0'
        <= suffix[i] <= '9') by {
        if let Some(n) = p.port {
            if i > 0 {
                assert(suffix[i] == decimal(n as nat)[i - 1]);
            }
        }
    }
    assert forall|i: int| 0 <= i < b.len() implies #[trigger] b[i] != '?' && b[i] != '#' && b[i]
        != '@' && !is_unicode_whitespace(b[i]) && (8 <= i ==> b[i] != '/') by {
        if i < 8 {
            assert(b[i] == "https://"@[i]);
        } else if i < 8 + h.len() {
            assert(b[i] == h[i - 8]);
        } else {
            assert(b[i] == suffix[i - 8 - h.len()]);
        }
    }
    assert(b.subrange(0, 8) =~= "https://"@);
}

/// What `api_base_from_parse` answers for the parsed `parts` of a server URL
/// and its `serialized` form without path: a bare HTTPS origin gives that
/// form without its trailing `/`.
pub open spec fn origin_decision(parts: Option<UrlPartsView>, serialized: Option<Seq<char>>) -> Result<
    Seq<char>,
    AppErrorView,
> {
    match parts {
        None => Err(AppErrorView::InvalidArgument(msg_bad_url())),
        Some(p) => if !is_bare_https_origin(p) {
            Err(AppErrorView::InvalidArgument(msg_not_origin()))
        } else {
            match serialized {
                Some(s) => Ok(trim_trailing_slashes_spec(s)),
                None => Err(AppErrorView::InvalidArgument(msg_bad_url())),
            }
        },
    }
}

/// What `normalize_api_base` answers for `input`.
pub open spec fn api_base_outcome(input: Seq<char>) -> Result<Seq<char>, AppErrorView> {
    origin_decision(url_parse_spec(trim_spec(input)), url_without_path_spec(trim_spec(input)))
}

/// What `normalize_company_id` answers for `input`.
pub open spec fn company_id_outcome(input: Seq<char>) -> Result<Seq<char>, AppErrorView> {
    match uuid_hyphenated_form(trim_spec(input)) {
        Some(id) => Ok(id),
        None => Err(AppErrorView::InvalidArgument(msg_bad_company())),
    }
}

/// What `endpoint` answers for `base` and `path`.
pub open spec fn endpoint_outcome(base: Seq<char>, path: Seq<char>) -> Result<
    Seq<char>,
    AppErrorView,
> {
    match url_join_spec(base, path) {
        Some(url) => Ok(url),
        None => Err(AppErrorView::InvalidArgument(msg_bad_endpoint())),
    }
}

/// Decides a server URL from its parsed `parts` and its `serialized` form
/// without path: it must name a bare HTTPS origin, which is then given
/// without its trailing `/`.
pub fn api_base_from_parse(parts: Option<UrlParts>, serialized: Option<String>) -> (r: Result<
    String,
    AppError,
>)
    ensures
        string_result_view(&r) == origin_decision(
            match parts {
                Some(p) => Some(p@),
                None => None,
            },
            serialized.deep_view(),
        ),
{
    let parts = match parts {
        Some(p) => p,
        None => {
            return Err(invalid("Enter a valid HTTPS Paperclip server URL."));
        },
    };
    let https = "https".to_owned();
    let slash = "/".to_owned();
    if !(parts.scheme == https) || parts.host.is_none() || !parts.username.as_str().is_empty()
        || parts.password.is_some() || (!(parts.path == slash)
        && !parts.path.as_str().is_empty()) || parts.query.is_some()
        || parts.fragment.is_some() {
        return Err(
            invalid(
                "Paperclip must use an HTTPS origin without credentials, path, query, or fragment.",
            ),
        );
    }
    match serialized {
        Some(s) => Ok(trim_trailing_slashes(s.as_str()).to_owned()),
        None => Err(invalid("Enter a valid HTTPS Paperclip server URL.")),
    }
}

/// `origin` followed by `/`, without its trailing `/` run, is `origin`
/// again where `origin` does not end with `/`.
proof fn lemma_strip_one_slash(origin: Seq<char>)
    requires
        origin.len() > 0,
        origin.last() != '/',
    ensures
        trim_trailing_slashes_spec(origin + "/"@) == origin,
{
    reveal_strlit("/");
    let s = origin + "/"@;
    assert(s.last() == '/');
    assert(s.drop_last() =~= origin);
    assert(trim_trailing_slashes_spec(origin) == origin);
    assert(trim_trailing_slashes_spec(s) == trim_trailing_slashes_spec(s.drop_last()));
}

/// Normalises the Paperclip server URL a user entered to a bare HTTPS origin
/// `https://host[:port]`, keeping a non-default port, with no trailing `/`.
/// A normalised origin normalises to itself.
pub fn normalize_api_base(input: &str) -> (r: Result<String, AppError>)
    ensures
        string_result_view(&r) == api_base_outcome(input@),
        r matches Ok(base) ==> base@ == origin_serialization(
            url_parse_spec(trim_spec(input@))->0,
        ),
        r matches Ok(base) ==> is_clean_origin(base@) && base@.last() != '/',
        r matches Ok(base) ==> api_base_outcome(base@) == Ok::<Seq<char>, AppErrorView>(base@),
{
    let trimmed = trim(input);
    let parts = parse_url(trimmed);
    let serialized = url_without_path(trimmed);
    let r = api_base_from_parse(parts, serialized);
    proof {
        if r is Ok {
            let p = url_parse_spec(trimmed@)->0;
            let s = url_without_path_spec(trimmed@)->0;
            assert(origin_reads_back(p, s));
            let b = origin_serialization(p);
            lemma_origin_serialization_is_clean(p);
            lemma_strip_one_slash(b);
            assert forall|i: int| 0 <= i < b.len() implies !is_unicode_whitespace(
                #[trigger] b[i],
            ) by {}
            lemma_trim_of_whitespace_free(b);
        }
    }
    r
}

/// Normalises the company identifier a user entered to the lowercase
/// hyphenated form of the UUID it names.
pub fn normalize_company_id(input: &str) -> (r: Result<String, AppError>)
    ensures
        string_result_view(&r) == company_id_outcome(input@),
        r matches Ok(id) ==> is_hyphenated_uuid(id@),
        r matches Ok(id) ==> company_id_outcome(id@) == Ok::<Seq<char>, AppErrorView>(id@),
{
    let trimmed = trim(input);
    match uuid_hyphenated(trimmed) {
        Some(id) => {
            proof {
                lemma_uuid_digits_are_lowercase(trimmed@);
                lemma_hyphenate_reads_back(uuid_digits(trimmed@)->0);
                assert(!is_hyphen_position(0) && !is_hyphen_position(35));
                assert(is_lower_hex_digit(id@[0]));
                assert(is_lower_hex_digit(id@[35]));
                lemma_trim_of_unpadded(id@);
            }
            Ok(id)
        },
        None => Err(invalid("Enter the Paperclip company UUID.")),
    }
}

/// The URL of the endpoint at `path` on the Paperclip server at `base`.
pub fn endpoint(base: &str, path: &str) -> (r: Result<String, AppError>)
    ensures
        string_result_view(&r) == endpoint_outcome(base@, path@),
{
    match join_url(base, path) {
        Some(url) => Ok(url),
        None => Err(invalid("Paperclip endpoint URL is invalid.")),
    }
}

/// The path and the decoded query pairs of `link`, or `None` where it does
/// not parse as a URL.
pub fn parse_approval_link(link: &str) -> (r: Option<(String, Vec<(String, String)>)>)
    ensures
        r.deep_view() == match url_parse_spec(link@) {
            Some(parts) => Some((parts.path, url_query_pairs_spec(link@)->0)),
            None => None,
        },
{
    let parts = parse_url(link)?;
    let pairs = parse_query_pairs(link)?;
    Some((parts.path, pairs))
}

/// The endpoint that issues sign-in challenges.
pub fn challenges_url(base: &str) -> (r: Result<String, AppError>)
    ensures
        string_result_view(&r) == endpoint_outcome(base@, "/api/cli-auth/challenges"@),
{
    endpoint(base, "/api/cli-auth/challenges")
}

/// The endpoint that reports the state of challenge `challenge_id`.
pub fn challenge_status_url(base: &str, challenge_id: &str) -> (r: Result<String, AppError>)
    ensures
        string_result_view(&r) == endpoint_outcome(
            base@,
            "/api/cli-auth/challenges/"@ + challenge_id@,
        ),
{
    let path = "/api/cli-auth/challenges/".to_owned().concat(challenge_id);
    endpoint(base, path.as_str())
}

/// The endpoint that cancels challenge `challenge_id`.
pub fn challenge_cancel_url(base: &str, challenge_id: &str) -> (r: Result<String, AppError>)
    ensures
        string_result_view(&r) == endpoint_outcome(
            base@,
            "/api/cli-auth/challenges/"@ + challenge_id@ + "/cancel"@,
        ),
{
    let path = "/api/cli-auth/challenges/".to_owned().concat(challenge_id).concat("/cancel");
    endpoint(base, path.as_str())
}

/// The endpoint that names the account a board token belongs to.
pub fn identity_url(base: &str) -> (r: Result<String, AppError>)
    ensures
        string_result_view(&r) == endpoint_outcome(base@, "/api/cli-auth/me"@),
{
    endpoint(base, "/api/cli-auth/me")
}

/// The endpoint that revokes the board token it is called with.
pub fn revoke_url(base: &str) -> (r: Result<String, AppError>)
    ensures
        string_result_view(&r) == endpoint_outcome(base@, "/api/cli-auth/revoke-current"@),
{
    endpoint(base, "/api/cli-auth/revoke-current")
}

/// The endpoint that lists the agents of company `company_id`.
pub fn agents_url(base: &str, company_id: &str) -> (r: Result<String, AppError>)
    ensures
        string_result_view(&r) == endpoint_outcome(
            base@,
            "/api/companies/"@ + company_id@ + "/agents"@,
        ),
{
    let path = "/api/companies/".to_owned().concat(company_id).concat("/agents");
    endpoint(base, path.as_str())
}

/// The endpoint that lists the projects of company `company_id`.
pub fn projects_url(base: &str, company_id: &str) -> (r: Result<String, AppError>)
    ensures
        string_result_view(&r) == endpoint_outcome(
            base@,
            "/api/companies/"@ + company_id@ + "/projects"@,
        ),
{
    let path = "/api/companies/".to_owned().concat(company_id).concat("/projects");
    endpoint(base, path.as_str())
}

} // verus!
