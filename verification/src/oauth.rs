//! The OAuth2 authorization-code flow with PKCE that obtains the credentials:
//! starting a login, judging the provider's callback, and turning the token
//! endpoint's answer into a credential record.
//!
//! At most one login is pending at a time. Starting a login replaces the
//! pending one; a callback matches only the login that is pending.

use vstd::prelude::*;
use vstd::string::StringExecFns;
use crate::chance::{is_timestamp, timestamp_now};
use crate::digest::is_hex_digit;
use crate::event::{or_text, text_or};
use crate::json::{json_document, json_text_at, parse_document, text_at};
use crate::pkce::{
    challenge_of, claim_of, code_challenge_s256, kept, kept_option, option_if_not_empty,
    parse_jwt_claim, rand_hex, some_if_not_empty,
};
use crate::state::{copy_text, CodexTokens, TokensModel};
use crate::text::chars_of;
use crate::upstream::{is_present, is_success};
use crate::web::{
    form_encode, form_encoded, html_escape, html_escaped, pairs_view, url_with_params,
    url_with_query,
};

verus! {

/// A login that waits for its callback.
#[derive(Clone, Debug, PartialEq)]
pub struct PendingOauth {
    /// The anti-forgery value that the callback must bring back.
    pub state: String,
    /// The PKCE code verifier.
    pub code_verifier: String,
    pub redirect_uri: String,
}

/// The mathematical model of a [`PendingOauth`].
pub struct PendingModel {
    pub state: Seq<char>,
    pub code_verifier: Seq<char>,
    pub redirect_uri: Seq<char>,
}

impl DeepView for PendingOauth {
    type V = PendingModel;

    open spec fn deep_view(&self) -> PendingModel {
        PendingModel {
            state: self.state@,
            code_verifier: self.code_verifier@,
            redirect_uri: self.redirect_uri@,
        }
    }
}

/// What starting a login answers: where to send the user.
#[derive(Clone, Debug, PartialEq)]
pub struct StartAuthResponse {
    pub auth_url: String,
}

impl DeepView for StartAuthResponse {
    type V = Seq<char>;

    open spec fn deep_view(&self) -> Seq<char> {
        self.auth_url@
    }
}

/// The query of the provider's callback.
#[derive(Clone, Debug, PartialEq)]
pub struct CallbackQuery {
    pub code: Option<String>,
    pub state: Option<String>,
    pub error: Option<String>,
    pub error_description: Option<String>,
}

/// The mathematical model of a [`CallbackQuery`].
pub struct QueryModel {
    pub code: Option<Seq<char>>,
    pub state: Option<Seq<char>>,
    pub error: Option<Seq<char>>,
    pub error_description: Option<Seq<char>>,
}

impl DeepView for CallbackQuery {
    type V = QueryModel;

    open spec fn deep_view(&self) -> QueryModel {
        QueryModel {
            code: self.code.deep_view(),
            state: self.state.deep_view(),
            error: self.error.deep_view(),
            error_description: self.error_description.deep_view(),
        }
    }
}

/// What a login is configured with.
#[derive(Clone, Debug, PartialEq)]
pub struct OauthSettings {
    pub client_id: String,
    /// What the redirect URI begins with, for servers behind a proxy. Absent,
    /// it is `http://localhost:` and the port.
    pub redirect_prefix: Option<String>,
    /// The port that the server listens on.
    pub port: u16,
}

/// The mathematical model of [`OauthSettings`].
pub struct SettingsModel {
    pub client_id: Seq<char>,
    pub redirect_prefix: Option<Seq<char>>,
    pub port: u16,
}

impl DeepView for OauthSettings {
    type V = SettingsModel;

    open spec fn deep_view(&self) -> SettingsModel {
        SettingsModel {
            client_id: self.client_id@,
            redirect_prefix: self.redirect_prefix.deep_view(),
            port: self.port,
        }
    }
}

/// The form-encoded `POST` that exchanges the code for tokens.
#[derive(Clone, Debug, PartialEq)]
pub struct TokenExchange {
    pub url: String,
    pub content_type: String,
    pub body: String,
}

/// The mathematical model of a [`TokenExchange`].
pub struct ExchangeModel {
    pub url: Seq<char>,
    pub content_type: Seq<char>,
    pub body: Seq<char>,
}

impl DeepView for TokenExchange {
    type V = ExchangeModel;

    open spec fn deep_view(&self) -> ExchangeModel {
        ExchangeModel { url: self.url@, content_type: self.content_type@, body: self.body@ }
    }
}

/// Why a callback did not log in.
#[derive(Clone, Debug, PartialEq)]
pub enum CallbackFailure {
    /// The provider reported an error.
    ProviderError { error: String, description: String },
    /// The callback lacks the code or the state.
    InvalidCallback,
    /// No login is pending.
    NoPendingLogin,
    /// The callback's state is not that of the pending login.
    StateMismatch,
    /// The token endpoint could not be reached.
    ExchangeFailed { reason: String },
    /// The token endpoint answered with a failure status.
    TokenEndpoint { status: u16, body: String },
}

/// The mathematical model of a [`CallbackFailure`].
pub enum FailureModel {
    ProviderError { error: Seq<char>, description: Seq<char> },
    InvalidCallback,
    NoPendingLogin,
    StateMismatch,
    ExchangeFailed { reason: Seq<char> },
    TokenEndpoint { status: u16, body: Seq<char> },
}

impl DeepView for CallbackFailure {
    type V = FailureModel;

    open spec fn deep_view(&self) -> FailureModel {
        match *self {
            CallbackFailure::ProviderError { error, description } => FailureModel::ProviderError {
                error: error@,
                description: description@,
            },
            CallbackFailure::InvalidCallback => FailureModel::InvalidCallback,
            CallbackFailure::NoPendingLogin => FailureModel::NoPendingLogin,
            CallbackFailure::StateMismatch => FailureModel::StateMismatch,
            CallbackFailure::ExchangeFailed { reason } => FailureModel::ExchangeFailed {
                reason: reason@,
            },
            CallbackFailure::TokenEndpoint { status, body } => FailureModel::TokenEndpoint {
                status,
                body: body@,
            },
        }
    }
}

/// How the exchange with the token endpoint went.
#[derive(Clone, Debug, PartialEq)]
pub enum ExchangeOutcome {
    /// The request did not get through.
    Unreachable { reason: String },
    /// The endpoint answered. A body that could not be read is empty.
    Answered { status: u16, body: String },
}

/// The mathematical model of an [`ExchangeOutcome`].
pub enum OutcomeModel {
    Unreachable { reason: Seq<char> },
    Answered { status: u16, body: Seq<char> },
}

impl DeepView for ExchangeOutcome {
    type V = OutcomeModel;

    open spec fn deep_view(&self) -> OutcomeModel {
        match *self {
            ExchangeOutcome::Unreachable { reason } => OutcomeModel::Unreachable { reason: reason@ },
            ExchangeOutcome::Answered { status, body } => OutcomeModel::Answered {
                status,
                body: body@,
            },
        }
    }
}

/// What the status endpoint reports of the credential record.
#[derive(Clone, Debug, PartialEq)]
pub struct TokenStatus {
    pub authenticated: bool,
    pub account_id: Option<String>,
    pub has_access_token: bool,
    pub last_refresh: Option<String>,
}

/// The mathematical model of a [`TokenStatus`].
pub struct StatusModel {
    pub authenticated: bool,
    pub account_id: Option<Seq<char>>,
    pub has_access_token: bool,
    pub last_refresh: Option<Seq<char>>,
}

impl DeepView for TokenStatus {
    type V = StatusModel;

    open spec fn deep_view(&self) -> StatusModel {
        StatusModel {
            authenticated: self.authenticated,
            account_id: self.account_id.deep_view(),
            has_access_token: self.has_access_token,
            last_refresh: self.last_refresh.deep_view(),
        }
    }
}

/// The single slot for the login that is pending.
#[derive(Clone, Debug, PartialEq)]
pub struct OauthFlow {
    pub pending: Option<PendingOauth>,
}

/// The ten decimal digits, in order.
pub open spec fn decimal_digits() -> Seq<char> {
    "0123456789"@
}

/// A number in decimal.
pub open spec fn decimal(n: nat) -> Seq<char>
    decreases n,
{
    if n < 10 {
        seq![decimal_digits()[n as int]]
    } else {
        decimal(n / 10).push(decimal_digits()[(n % 10) as int])
    }
}

/// `s` without the `/` at its end, however many there are.
pub open spec fn without_trailing_slashes(s: Seq<char>) -> Seq<char>
    decreases s.len(),
{
    if s.len() > 0 && s.last() == '/' {
        without_trailing_slashes(s.drop_last())
    } else {
        s
    }
}

/// Where the provider sends the user back to.
pub open spec fn redirect_uri_of(settings: SettingsModel) -> Seq<char> {
    let prefix = match settings.redirect_prefix {
        Some(p) => p,
        None => "http://localhost:"@ + decimal(settings.port as nat),
    };
    without_trailing_slashes(prefix) + "/codex/oauth/callback"@
}

/// The provider's authorization endpoint.
pub open spec fn authorize_endpoint() -> Seq<char> {
    "https://auth.openai.com/oauth/authorize"@
}

/// The provider's token endpoint.
pub open spec fn token_endpoint() -> Seq<char> {
    "https://auth.openai.com/oauth/token"@
}

/// The provider's authorization endpoint is an absolute URL, so that a login
/// can start: `url` parses it, with no parameter added.
pub open spec fn endpoint_is_url() -> bool {
    url_with_query(authorize_endpoint(), Seq::empty()) is Some
}

/// The query parameters of the authorization URL, in order.
pub open spec fn authorization_pairs(
    client_id: Seq<char>,
    redirect_uri: Seq<char>,
    challenge: Seq<char>,
    state: Seq<char>,
) -> Seq<(Seq<char>, Seq<char>)> {
    seq![
        ("response_type"@, "code"@),
        ("client_id"@, client_id),
        ("redirect_uri"@, redirect_uri),
        ("scope"@, "openid profile email offline_access"@),
        ("code_challenge"@, challenge),
        ("code_challenge_method"@, "S256"@),
        ("id_token_add_organizations"@, "true"@),
        ("codex_cli_simplified_flow"@, "true"@),
        ("state"@, state),
    ]
}

/// The authorization URL of a login, if the endpoint parses as a URL.
pub open spec fn authorization_url(settings: SettingsModel, verifier: Seq<char>, state: Seq<char>) -> Option<
    Seq<char>,
> {
    url_with_query(
        authorize_endpoint(),
        authorization_pairs(
            settings.client_id,
            redirect_uri_of(settings),
            challenge_of(verifier),
            state,
        ),
    )
}

/// The slot after starting a login with the given verifier and state: the
/// new login replaces whatever was pending. Where no authorization URL can
/// be built, the slot stays as it was.
pub open spec fn slot_after_start(
    before: Option<PendingModel>,
    settings: SettingsModel,
    verifier: Seq<char>,
    state: Seq<char>,
) -> Option<PendingModel> {
    if authorization_url(settings, verifier, state) is Some {
        Some(PendingModel { state, code_verifier: verifier, redirect_uri: redirect_uri_of(settings) })
    } else {
        before
    }
}

/// The fields of the form that exchanges a code, in order.
pub open spec fn exchange_pairs(
    code: Seq<char>,
    redirect_uri: Seq<char>,
    client_id: Seq<char>,
    verifier: Seq<char>,
) -> Seq<(Seq<char>, Seq<char>)> {
    seq![
        ("grant_type"@, "authorization_code"@),
        ("code"@, code),
        ("redirect_uri"@, redirect_uri),
        ("client_id"@, client_id),
        ("code_verifier"@, verifier),
    ]
}

/// What a callback leads to: a failure, or the exchange of its code.
///
/// A provider error comes first; then a missing code or state; then the
/// absence of a pending login; then a state that is not the pending one.
pub open spec fn callback_decision(
    q: QueryModel,
    pending: Option<PendingModel>,
    client_id: Seq<char>,
) -> Result<ExchangeModel, FailureModel> {
    if q.error is Some {
        Err(
            FailureModel::ProviderError {
                error: q.error->0,
                description: text_or(q.error_description, Seq::empty()),
            },
        )
    } else if q.code is None || q.state is None {
        Err(FailureModel::InvalidCallback)
    } else {
        match pending {
            None => Err(FailureModel::NoPendingLogin),
            Some(p) => if p.state != q.state->0 {
                Err(FailureModel::StateMismatch)
            } else {
                Ok(
                    ExchangeModel {
                        url: token_endpoint(),
                        content_type: "application/x-www-form-urlencoded"@,
                        body: form_encoded(
                            exchange_pairs(q.code->0, p.redirect_uri, client_id, p.code_verifier),
                        ),
                    },
                )
            },
        }
    }
}

/// The text under `key` in the token endpoint's answer; empty where the
/// answer is no JSON or has no such text.
pub open spec fn token_field(body: Seq<char>, key: Seq<char>) -> Seq<char> {
    match json_document(body) {
        Some(doc) => text_or(json_text_at(doc, key), Seq::empty()),
        None => Seq::empty(),
    }
}

/// The credential record that the token endpoint's answer gives: its tokens,
/// blank ones left out; the account id that the identity token claims; the
/// time of the login; and the API key that the record held before.
pub open spec fn credentials_from(body: Seq<char>, api_key: Option<Seq<char>>, now: Seq<char>) -> TokensModel {
    TokensModel {
        id_token: kept(token_field(body, "id_token"@)),
        access_token: kept(token_field(body, "access_token"@)),
        refresh_token: kept(token_field(body, "refresh_token"@)),
        account_id: kept_option(
            claim_of(
                token_field(body, "id_token"@),
                "https://api.openai.com/auth"@,
                "chatgpt_account_id"@,
            ),
        ),
        last_refresh: Some(now),
        api_key,
    }
}

/// What the exchange leads to: a failure, or the new credential record.
pub open spec fn login_result(outcome: OutcomeModel, api_key: Option<Seq<char>>, now: Seq<char>) -> Result<
    TokensModel,
    FailureModel,
> {
    match outcome {
        OutcomeModel::Unreachable { reason } => Err(FailureModel::ExchangeFailed { reason }),
        OutcomeModel::Answered { status, body } => if 200 <= status <= 299 {
            Ok(credentials_from(body, api_key, now))
        } else {
            Err(FailureModel::TokenEndpoint { status, body })
        },
    }
}

/// The page that tells the user of a failure.
pub open spec fn failure_page(f: FailureModel) -> Seq<char> {
    match f {
        FailureModel::ProviderError { error, description } => "<html><body><h2>Login error</h2><p>"@
            + html_escaped(error) + "</p><p>"@ + html_escaped(description)
            + "</p></body></html>"@,
        FailureModel::InvalidCallback => "<html><body><h2>Invalid callback</h2></body></html>"@,
        FailureModel::NoPendingLogin => "<html><body><h2>No pending login or it expired</h2></body></html>"@,
        FailureModel::StateMismatch => "<html><body><h2>State mismatch</h2></body></html>"@,
        FailureModel::ExchangeFailed { reason } => "<html><body><h2>Token exchange failed</h2><p>"@
            + html_escaped(reason) + "</p></body></html>"@,
        FailureModel::TokenEndpoint { status, body } => "<html><body><h2>Token endpoint error "@
            + decimal(status as nat) + "</h2><pre>"@ + html_escaped(body)
            + "</pre></body></html>"@,
    }
}

/// The page that tells the user that the login succeeded.
pub open spec fn success_page() -> Seq<char> {
    "<html><body><h2>Login successful</h2><p>You can close this window.</p></body></html>"@
}

/// What the status endpoint reports of a credential record.
pub open spec fn status_of(t: TokensModel) -> StatusModel {
    StatusModel {
        authenticated: is_present(t.access_token) && is_present(t.account_id),
        account_id: t.account_id,
        has_access_token: is_present(t.access_token),
        last_refresh: t.last_refresh,
    }
}

/// The deep view of a callback's decision.
pub open spec fn decision_view(r: Result<TokenExchange, CallbackFailure>) -> Result<
    ExchangeModel,
    FailureModel,
> {
    match r {
        Ok(x) => Ok(x.deep_view()),
        Err(f) => Err(f.deep_view()),
    }
}

/// The deep view of a login's result.
pub open spec fn login_view(r: Result<CodexTokens, CallbackFailure>) -> Result<
    TokensModel,
    FailureModel,
> {
    match r {
        Ok(t) => Ok(t.deep_view()),
        Err(f) => Err(f.deep_view()),
    }
}

/// After a login has started, a callback that brings a code and a state
/// other than the login's is a state mismatch.
pub proof fn lemma_other_state_is_a_mismatch(
    before: Option<PendingModel>,
    settings: SettingsModel,
    verifier: Seq<char>,
    state: Seq<char>,
    q: QueryModel,
    client_id: Seq<char>,
)
    requires
        authorization_url(settings, verifier, state) is Some,
        q.error is None,
        q.code is Some,
        q.state is Some,
        q.state->0 != state,
    ensures
        callback_decision(q, slot_after_start(before, settings, verifier, state), client_id) == Err::<
            ExchangeModel,
            FailureModel,
        >(FailureModel::StateMismatch),
{
}

/// The last start wins: after two starts the pending login is the second
/// one, whatever the first was, so a callback with the first state no longer
/// matches.
pub proof fn lemma_last_start_wins(
    before: Option<PendingModel>,
    settings: SettingsModel,
    verifier_a: Seq<char>,
    state_a: Seq<char>,
    verifier_b: Seq<char>,
    state_b: Seq<char>,
)
    requires
        authorization_url(settings, verifier_b, state_b) is Some,
    ensures
        slot_after_start(
            slot_after_start(before, settings, verifier_a, state_a),
            settings,
            verifier_b,
            state_b,
        ) == Some(
            PendingModel {
                state: state_b,
                code_verifier: verifier_b,
                redirect_uri: redirect_uri_of(settings),
            },
        ),
{
}

/// A callback that matches the pending login asks for the exchange of its
/// code, and no other callback does.
pub proof fn lemma_only_the_pending_login_matches(
    q: QueryModel,
    pending: Option<PendingModel>,
    client_id: Seq<char>,
)
    ensures
        callback_decision(q, pending, client_id) is Ok <==> q.error is None && q.code is Some
            && q.state is Some && pending is Some && pending->0.state == q.state->0,
{
}

/// The decimal digit for `d`.
fn digit(d: u64) -> (c: char)
    requires
        d < 10,
    ensures
        c == decimal_digits()[d as int],
{
    proof {
        reveal_strlit("0123456789");
    }
    "0123456789".get_char(d as usize)
}

/// `n` in decimal.
pub fn decimal_text(n: u64) -> (s: String)
    ensures
        s@ == decimal(n as nat),
    decreases n,
{
    if n < 10 {
        let mut s = String::new();
        s.push(digit(n));
        s
    } else {
        let mut s = decimal_text(n / 10);
        s.push(digit(n % 10));
        s
    }
}

/// `s` without the `/` at its end.
pub fn trim_trailing_slashes(s: &str) -> (r: String)
    ensures
        r@ == without_trailing_slashes(s@),
{
    let v = chars_of(s);
    let mut n: usize = v.len();
    proof {
        assert(v@.take(n as int) =~= v@);
    }
    while n > 0 && v[n - 1] == '/'
        invariant
            n <= v.len(),
            without_trailing_slashes(v@) == without_trailing_slashes(v@.take(n as int)),
        decreases n,
    {
        proof {
            assert(v@.take(n as int).drop_last() =~= v@.take(n - 1));
        }
        n -= 1;
    }
    crate::text::text_of(&v, 0, n)
}

/// One name/value pair.
fn pair(name: &str, value: &str) -> (p: (String, String))
    ensures
        p.0@ == name@,
        p.1@ == value@,
{
    (name.to_string(), value.to_string())
}

impl OauthSettings {
    /// Where the provider sends the user back to.
    pub fn redirect_uri(&self) -> (r: String)
        ensures
            r@ == redirect_uri_of(self.deep_view()),
    {
        let mut r = match &self.redirect_prefix {
            Some(p) => trim_trailing_slashes(p.as_str()),
            None => {
                let mut local = "http://localhost:".to_string();
                local.append(decimal_text(self.port as u64).as_str());
                trim_trailing_slashes(local.as_str())
            },
        };
        r.append("/codex/oauth/callback");
        r
    }
}

impl CallbackFailure {
    /// The page that tells the user of the failure.
    pub fn page(&self) -> (r: String)
        ensures
            r@ == failure_page(self.deep_view()),
    {
        match self {
            CallbackFailure::ProviderError { error, description } => {
                let mut r = "<html><body><h2>Login error</h2><p>".to_string();
                r.append(html_escape(error.as_str()).as_str());
                r.append("</p><p>");
                r.append(html_escape(description.as_str()).as_str());
                r.append("</p></body></html>");
                r
            },
            CallbackFailure::InvalidCallback => {
                "<html><body><h2>Invalid callback</h2></body></html>".to_string()
            },
            CallbackFailure::NoPendingLogin => {
                "<html><body><h2>No pending login or it expired</h2></body></html>".to_string()
            },
            CallbackFailure::StateMismatch => {
                "<html><body><h2>State mismatch</h2></body></html>".to_string()
            },
            CallbackFailure::ExchangeFailed { reason } => {
                let mut r = "<html><body><h2>Token exchange failed</h2><p>".to_string();
                r.append(html_escape(reason.as_str()).as_str());
                r.append("</p></body></html>");
                r
            },
            CallbackFailure::TokenEndpoint { status, body } => {
                let mut r = "<html><body><h2>Token endpoint error ".to_string();
                r.append(decimal_text(*status as u64).as_str());
                r.append("</h2><pre>");
                r.append(html_escape(body.as_str()).as_str());
                r.append("</pre></body></html>");
                r
            },
        }
    }
}

/// The page that tells the user that the login succeeded.
pub fn login_successful_page() -> (r: String)
    ensures
        r@ == success_page(),
{
    "<html><body><h2>Login successful</h2><p>You can close this window.</p></body></html>".to_string()
}

/// The text under `key` in the token endpoint's answer.
fn read_token_field(doc: &Option<serde_json::Value>, key: &str) -> (r: String)
    ensures
        r@ == (match *doc {
            Some(d) => text_or(json_text_at(d, key@), Seq::empty()),
            None => Seq::empty(),
        }),
{
    proof {
        reveal_strlit("");
    }
    match doc {
        Some(d) => or_text(text_at(d, key), ""),
        None => String::new(),
    }
}

/// The credential record that the token endpoint's answer gives, for a login
/// at the time `now` that keeps the API key `api_key`.
pub fn credentials_from_answer(body: &str, api_key: Option<String>, now: String) -> (t: CodexTokens)
    ensures
        t.deep_view() == credentials_from(body@, api_key.deep_view(), now@),
{
    let doc = parse_document(body);
    let id_token = read_token_field(&doc, "id_token");
    let access_token = read_token_field(&doc, "access_token");
    let refresh_token = read_token_field(&doc, "refresh_token");
    let account_id = parse_jwt_claim(
        id_token.as_str(),
        "https://api.openai.com/auth",
        "chatgpt_account_id",
    );
    CodexTokens {
        id_token: some_if_not_empty(id_token),
        access_token: some_if_not_empty(access_token),
        refresh_token: some_if_not_empty(refresh_token),
        account_id: option_if_not_empty(account_id),
        last_refresh: Some(now),
        api_key,
    }
}

/// What the status endpoint reports of a credential record.
pub fn token_status(tokens: &CodexTokens) -> (s: TokenStatus)
    ensures
        s.deep_view() == status_of(tokens.deep_view()),
{
    let has_access_token = match &tokens.access_token {
        Some(t) => !t.as_str().is_empty(),
        None => false,
    };
    let has_account = match &tokens.account_id {
        Some(t) => !t.as_str().is_empty(),
        None => false,
    };
    TokenStatus {
        authenticated: has_access_token && has_account,
        account_id: copy_text(&tokens.account_id),
        has_access_token,
        last_refresh: copy_text(&tokens.last_refresh),
    }
}

impl OauthFlow {
    /// A flow with no login pending.
    pub fn new() -> (f: OauthFlow)
        ensures
            f.pending is None,
    {
        OauthFlow { pending: None }
    }

    /// Starts a login with the given code verifier and state.
    ///
    /// The login replaces whatever was pending, and the answer is the
    /// authorization URL: the provider's endpoint with the response type, the
    /// client id, the redirect URI, the scopes, the S256 challenge of the
    /// verifier and the state. Where no URL can be built nothing changes and
    /// there is no answer.
    pub fn begin(&mut self, settings: &OauthSettings, code_verifier: String, state: String) -> (r:
        Option<StartAuthResponse>)
        ensures
            r.deep_view() == authorization_url(settings.deep_view(), code_verifier@, state@),
            r is Some <==> endpoint_is_url(),
            final(self).pending.deep_view() == slot_after_start(
                old(self).pending.deep_view(),
                settings.deep_view(),
                code_verifier@,
                state@,
            ),
    {
        let redirect_uri = settings.redirect_uri();
        let challenge = code_challenge_s256(code_verifier.as_str());
        let mut pairs: Vec<(String, String)> = Vec::new();
        pairs.push(pair("response_type", "code"));
        pairs.push(pair("client_id", settings.client_id.as_str()));
        pairs.push(pair("redirect_uri", redirect_uri.as_str()));
        pairs.push(pair("scope", "openid profile email offline_access"));
        pairs.push(pair("code_challenge", challenge.as_str()));
        pairs.push(pair("code_challenge_method", "S256"));
        pairs.push(pair("id_token_add_organizations", "true"));
        pairs.push(pair("codex_cli_simplified_flow", "true"));
        pairs.push(pair("state", state.as_str()));
        assert(pairs_view(pairs@) =~= authorization_pairs(
            settings.client_id@,
            redirect_uri@,
            challenge@,
            state@,
        ));
        match url_with_params("https://auth.openai.com/oauth/authorize", &pairs) {
            Some(auth_url) => {
                self.pending = Some(PendingOauth { state, code_verifier, redirect_uri });
                Some(StartAuthResponse { auth_url })
            },
            None => None,
        }
    }

    /// Starts a login with a fresh verifier of 64 random bytes and a fresh
    /// state of 32 random bytes, both in hexadecimal. Everything else is as
    /// [`OauthFlow::begin`] says: the login starts, and replaces whatever was
    /// pending, exactly where the provider's endpoint is a URL, whatever the
    /// settings are and whatever was drawn.
    pub fn start(&mut self, settings: &OauthSettings) -> (r: Option<StartAuthResponse>)
        ensures
            r is Some <==> endpoint_is_url(),
            match r {
                Some(answer) => {
                    &&& final(self).pending is Some
                    &&& final(self).pending->0.code_verifier@.len() == 128
                    &&& final(self).pending->0.state@.len() == 64
                    &&& forall|i: int|
                        0 <= i < 128 ==> is_hex_digit(
                            #[trigger] final(self).pending->0.code_verifier@[i],
                        )
                    &&& forall|i: int|
                        0 <= i < 64 ==> is_hex_digit(#[trigger] final(self).pending->0.state@[i])
                    &&& final(self).pending->0.redirect_uri@ == redirect_uri_of(
                        settings.deep_view(),
                    )
                    &&& Some(answer.auth_url@) == authorization_url(
                        settings.deep_view(),
                        final(self).pending->0.code_verifier@,
                        final(self).pending->0.state@,
                    )
                },
                None => final(self).pending.deep_view() == old(self).pending.deep_view(),
            },
    {
        let code_verifier = rand_hex(64);
        let state = rand_hex(32);
        self.begin(settings, code_verifier, state)
    }

    /// Judges the provider's callback: the exchange of its code, or why it
    /// does not log in. The pending login stays as it is.
    pub fn callback(&self, q: &CallbackQuery, client_id: &str) -> (r: Result<
        TokenExchange,
        CallbackFailure,
    >)
        ensures
            decision_view(r) == callback_decision(
                q.deep_view(),
                self.pending.deep_view(),
                client_id@,
            ),
    {
        proof {
            reveal_strlit("");
            assert(""@ =~= Seq::<char>::empty());
        }
        if let Some(error) = &q.error {
            return Err(
                CallbackFailure::ProviderError {
                    error: error.clone(),
                    description: or_text(copy_text(&q.error_description), ""),
                },
            );
        }
        let (code, state) = match (&q.code, &q.state) {
            (Some(c), Some(s)) => (c, s),
            _ => {
                return Err(CallbackFailure::InvalidCallback);
            },
        };
        let p = match &self.pending {
            Some(p) => p,
            None => {
                return Err(CallbackFailure::NoPendingLogin);
            },
        };
        if !p.state.as_str().eq(state.as_str()) {
            return Err(CallbackFailure::StateMismatch);
        }
        let mut form: Vec<(String, String)> = Vec::new();
        form.push(pair("grant_type", "authorization_code"));
        form.push(pair("code", code.as_str()));
        form.push(pair("redirect_uri", p.redirect_uri.as_str()));
        form.push(pair("client_id", client_id));
        form.push(pair("code_verifier", p.code_verifier.as_str()));
        assert(pairs_view(form@) =~= exchange_pairs(
            code@,
            p.redirect_uri@,
            client_id@,
            p.code_verifier@,
        ));
        Ok(
            TokenExchange {
                url: "https://auth.openai.com/oauth/token".to_string(),
                content_type: "application/x-www-form-urlencoded".to_string(),
                body: form_encode(&form),
            },
        )
    }

    /// Ends a login with the outcome of the exchange, at the time `now`.
    ///
    /// Where the token endpoint answered with success, the result is the new
    /// credential record, which keeps the API key of `previous`, and no login
    /// is pending any more. Otherwise the result says why, and the pending
    /// login stays as it is.
    pub fn complete(&mut self, outcome: &ExchangeOutcome, previous: &CodexTokens, now: String) -> (r:
        Result<CodexTokens, CallbackFailure>)
        ensures
            login_view(r) == login_result(
                outcome.deep_view(),
                previous.deep_view().api_key,
                now@,
            ),
            r is Ok ==> final(self).pending is None,
            r is Err ==> *final(self) == *old(self),
    {
        match outcome {
            ExchangeOutcome::Unreachable { reason } => Err(
                CallbackFailure::ExchangeFailed { reason: reason.clone() },
            ),
            ExchangeOutcome::Answered { status, body } => {
                if is_success(*status) {
                    let tokens = credentials_from_answer(
                        body.as_str(),
                        copy_text(&previous.api_key),
                        now,
                    );
                    self.pending = None;
                    Ok(tokens)
                } else {
                    Err(CallbackFailure::TokenEndpoint { status: *status, body: body.clone() })
                }
            },
        }
    }

    /// Ends a login with the outcome of the exchange, at the present time.
    /// Everything but the time of the login is as [`OauthFlow::complete`]
    /// says.
    pub fn finish(&mut self, outcome: &ExchangeOutcome, previous: &CodexTokens) -> (r: Result<
        CodexTokens,
        CallbackFailure,
    >)
        ensures
            r matches Ok(t) ==> t.deep_view().last_refresh is Some && is_timestamp(
                t.deep_view().last_refresh->0,
            ) && login_view(r) == login_result(
                outcome.deep_view(),
                previous.deep_view().api_key,
                t.deep_view().last_refresh->0,
            ) && final(self).pending is None,
            r is Err ==> *final(self) == *old(self) && login_view(r) == login_result(
                outcome.deep_view(),
                previous.deep_view().api_key,
                Seq::empty(),
            ),
            r is Ok <==> outcome.deep_view() is Answered && 200 <= outcome.deep_view()->status
                <= 299,
    {
        let now = timestamp_now();
        self.complete(outcome, previous, now)
    }
}

} // verus!
