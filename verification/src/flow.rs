//! The routes: login, callback, logout, and everything else, which is protected.
//!
//! A request is answered in steps. Each step either asks for one action and waits for its outcome,
//! or ends the flow with a response or a refusal.

use crate::action::{
    outcome_fault, store_error, store_fault, unexpected, Action, ActionView, Event, EventView,
};
use crate::config::{Config, ConfigView};
use crate::error::{fault, AuthError, AuthErrorView, ErrorKind};
use crate::form::{form_pairs, form_query, query_param, to_query};
use crate::http::{
    add_pair, pair_texts, redirect, redirect_view, redirect_with_cookie, redirect_with_cookie_view,
    text, text_view, value_of, Method, OutRequest, OutRequestView, Request, RequestView, Response,
    ResponseView,
};
use crate::json::{json_members, member_text, members_of, read_json, JsonObject};
use crate::jwks::{Jwk, JwkView, TenantMeta, TenantMetaView};
use crate::jwt::{
    check_claims_at, claims_fault, header_bytes, listed, token_payload, verify_token,
    Claims, ClaimsView, Header, HeaderView,
};
use crate::pkce::{
    begin_at, begin_outcome, begun, pending_fault, pkce_key, pkce_key_text, record_outcome, take_at,
    PkceRecord, PkceRecordView, PkceStart, PkceStartView,
};
use crate::provider::{
    get_meta, is_success, key_next, key_start, key_step, meta_next, meta_start, meta_step,
    signing_key, KeyNext, KeyNextView, KeyState, KeyStateView, MetaNext, MetaNextView, MetaState,
    MetaStateView,
};
use crate::session::{
    clear_cookie, cleared_cookie, cookie_for, create_at, create_outcome, created, lookup_at,
    looked_up, revoke, sess_key, sess_key_text, set_cookie, Lookup, LookupView, Session, SessionView,
    COOKIE_NAME,
};
use crate::text::{
    begins_with, decimal, decimal_text, has_prefix, has_suffix, join, joined, lossy, lossy_text,
    same_text, show_list, shown_list, split, text_opt, without_suffix,
};
use crate::util::{b64url_decoded, clock_reads, cookie, cookie_value, now_secs};
use vstd::prelude::*;

verus! {

// ---------------------------------------------------------------------------
// States and steps
// ---------------------------------------------------------------------------

/// How far a login has come.
#[derive(Debug)]
pub enum LoginState {
    /// The provider's record is being got.
    Meta { meta: MetaState, return_to: String },
    /// The pending login is being written; then the browser goes to `location`.
    Save { location: String },
}

/// How far the return from the provider has come.
#[derive(Debug)]
pub enum CallbackState {
    /// The pending login was asked for.
    Take { code: String, state: String },
    /// The pending login was found and is being deleted.
    Spend { code: String, found: Result<PkceRecord, String> },
    /// The provider's record is being got.
    Meta { code: String, rec: PkceRecord, meta: MetaState },
    /// The code is being exchanged for a token.
    Exchange { rec: PkceRecord },
    /// The header of the token is being read.
    Header { rec: PkceRecord, id_token: String },
    /// The key that the token names is being got.
    Key { rec: PkceRecord, id_token: String, header: Header, key: KeyState },
    /// The signature holds; the claims are being read.
    Claims { rec: PkceRecord, id_token: String, header: Header, jwk: Jwk },
    /// The session is being written.
    Save { sid: String, return_to: String },
}

/// How far a logout has come.
#[derive(Debug)]
pub enum LogoutState {
    /// The session was asked for.
    Lookup { sid: String },
    /// The session has run out and is being deleted for that.
    Expire { sid: String },
    /// The session is being deleted.
    Revoke { sid: String, hint: Option<String> },
    /// The provider's record is being got.
    Meta { hint: Option<String>, meta: MetaState },
}

/// How far a protected request has come.
#[derive(Debug)]
pub enum ProtectedState {
    /// The session was asked for.
    Lookup { sid: String, path: String },
    /// The session has run out and is being deleted.
    Expire { path: String },
    /// The request is with the control plane.
    Forward,
}

/// A request that is being answered.
#[derive(Debug)]
pub enum Flow {
    Login(LoginState),
    Callback(CallbackState),
    Logout(LogoutState),
    Protected(ProtectedState),
}

/// The next thing to do about a request.
#[derive(Debug)]
pub enum Step {
    /// Perform the action and resume the flow with its outcome.
    Act(Flow, Action),
    Respond(Response),
    /// Answer with the refusal.
    Fail(AuthError),
}

/// The mathematical model of a [`LoginState`].
pub enum LoginStateView {
    Meta { meta: MetaStateView, return_to: Seq<char> },
    Save { location: Seq<char> },
}

/// The mathematical model of a [`CallbackState`].
pub enum CallbackStateView {
    Take { code: Seq<char>, state: Seq<char> },
    Spend { code: Seq<char>, found: Result<PkceRecordView, Seq<char>> },
    Meta { code: Seq<char>, rec: PkceRecordView, meta: MetaStateView },
    Exchange { rec: PkceRecordView },
    Header { rec: PkceRecordView, id_token: Seq<char> },
    Key { rec: PkceRecordView, id_token: Seq<char>, header: HeaderView, key: KeyStateView },
    Claims { rec: PkceRecordView, id_token: Seq<char>, header: HeaderView, jwk: JwkView },
    Save { sid: Seq<char>, return_to: Seq<char> },
}

/// The mathematical model of a [`LogoutState`].
pub enum LogoutStateView {
    Lookup { sid: Seq<char> },
    Expire { sid: Seq<char> },
    Revoke { sid: Seq<char>, hint: Option<Seq<char>> },
    Meta { hint: Option<Seq<char>>, meta: MetaStateView },
}

/// The mathematical model of a [`ProtectedState`].
pub enum ProtectedStateView {
    Lookup { sid: Seq<char>, path: Seq<char> },
    Expire { path: Seq<char> },
    Forward,
}

/// The mathematical model of a [`Flow`].
pub enum FlowView {
    Login(LoginStateView),
    Callback(CallbackStateView),
    Logout(LogoutStateView),
    Protected(ProtectedStateView),
}

/// The mathematical model of a [`Step`].
pub enum StepView {
    Act(FlowView, ActionView),
    Respond(ResponseView),
    Fail(AuthErrorView),
}

impl View for LoginState {
    type V = LoginStateView;

    open spec fn view(&self) -> LoginStateView {
        match self {
            LoginState::Meta { meta, return_to } => LoginStateView::Meta {
                meta: meta@,
                return_to: return_to@,
            },
            LoginState::Save { location } => LoginStateView::Save { location: location@ },
        }
    }
}

impl View for CallbackState {
    type V = CallbackStateView;

    open spec fn view(&self) -> CallbackStateView {
        match self {
            CallbackState::Take { code, state } => CallbackStateView::Take {
                code: code@,
                state: state@,
            },
            CallbackState::Spend { code, found } => CallbackStateView::Spend {
                code: code@,
                found: record_outcome(*found),
            },
            CallbackState::Meta { code, rec, meta } => CallbackStateView::Meta {
                code: code@,
                rec: rec@,
                meta: meta@,
            },
            CallbackState::Exchange { rec } => CallbackStateView::Exchange { rec: rec@ },
            CallbackState::Header { rec, id_token } => CallbackStateView::Header {
                rec: rec@,
                id_token: id_token@,
            },
            CallbackState::Key { rec, id_token, header, key } => CallbackStateView::Key {
                rec: rec@,
                id_token: id_token@,
                header: header@,
                key: key@,
            },
            CallbackState::Claims { rec, id_token, header, jwk } => CallbackStateView::Claims {
                rec: rec@,
                id_token: id_token@,
                header: header@,
                jwk: jwk@,
            },
            CallbackState::Save { sid, return_to } => CallbackStateView::Save {
                sid: sid@,
                return_to: return_to@,
            },
        }
    }
}

impl View for LogoutState {
    type V = LogoutStateView;

    open spec fn view(&self) -> LogoutStateView {
        match self {
            LogoutState::Lookup { sid } => LogoutStateView::Lookup { sid: sid@ },
            LogoutState::Expire { sid } => LogoutStateView::Expire { sid: sid@ },
            LogoutState::Revoke { sid, hint } => LogoutStateView::Revoke {
                sid: sid@,
                hint: text_opt(*hint),
            },
            LogoutState::Meta { hint, meta } => LogoutStateView::Meta {
                hint: text_opt(*hint),
                meta: meta@,
            },
        }
    }
}

impl View for ProtectedState {
    type V = ProtectedStateView;

    open spec fn view(&self) -> ProtectedStateView {
        match self {
            ProtectedState::Lookup { sid, path } => ProtectedStateView::Lookup {
                sid: sid@,
                path: path@,
            },
            ProtectedState::Expire { path } => ProtectedStateView::Expire { path: path@ },
            ProtectedState::Forward => ProtectedStateView::Forward,
        }
    }
}

impl View for Flow {
    type V = FlowView;

    open spec fn view(&self) -> FlowView {
        match self {
            Flow::Login(st) => FlowView::Login(st@),
            Flow::Callback(st) => FlowView::Callback(st@),
            Flow::Logout(st) => FlowView::Logout(st@),
            Flow::Protected(st) => FlowView::Protected(st@),
        }
    }
}

impl View for Step {
    type V = StepView;

    open spec fn view(&self) -> StepView {
        match self {
            Step::Act(flow, act) => StepView::Act(flow@, act@),
            Step::Respond(resp) => StepView::Respond(resp@),
            Step::Fail(e) => StepView::Fail(e@),
        }
    }
}

/// The step that an outcome with a response comes to.
fn respond(r: Result<Response, AuthError>) -> (s: Step)
    ensures
        r matches Ok(resp) ==> s == Step::Respond(resp),
        r matches Err(e) ==> s == Step::Fail(e),
{
    match r {
        Ok(resp) => Step::Respond(resp),
        Err(e) => Step::Fail(e),
    }
}

/// The response to a request that is refused: it says why.
pub open spec fn error_view(e: AuthErrorView) -> ResponseView {
    text_view(500, "auth component error: "@ + e.message)
}

/// The response to a request that is refused: it says why.
pub fn error_response(e: &AuthError) -> (r: Response)
    ensures
        r@ == error_view(e@),
{
    let mut body = "auth component error: ".to_owned();
    body.append(e.message.as_str());
    text(500, body)
}

// ---------------------------------------------------------------------------
// Small decisions
// ---------------------------------------------------------------------------

/// Is `v` a path on this site: does it begin with one slash, and with no second one after it, in
/// either direction?
pub open spec fn is_local_path(v: Seq<char>) -> bool {
    has_prefix(v, "/"@) && !has_prefix(v, "//"@) && !has_prefix(v, "/\\"@)
}

/// `v` where it is a path on this site, else the root.
pub open spec fn sanitized(v: Seq<char>) -> Seq<char> {
    if is_local_path(v) {
        v
    } else {
        "/"@
    }
}

/// Where the browser may go after a login: a path on this site, or else the root.
pub fn sanitize_return_to(v: &str) -> (r: String)
    ensures
        r@ == sanitized(v@),
{
    if begins_with(v, "/") && !begins_with(v, "//") && !begins_with(v, "/\\") {
        v.to_owned()
    } else {
        "/".to_owned()
    }
}

/// The application's own address: the redirect address without `/callback`.
pub open spec fn app_base_text(redirect_uri: Seq<char>) -> Seq<char> {
    if has_suffix(redirect_uri, "/callback"@) {
        redirect_uri.take(redirect_uri.len() - "/callback"@.len())
    } else {
        redirect_uri
    }
}

/// The application's own address.
pub fn app_base(cfg: &Config) -> (r: String)
    ensures
        r@ == app_base_text(cfg@.redirect_uri),
{
    match without_suffix(cfg.redirect_uri.as_str(), "/callback") {
        Some(base) => base,
        None => cfg.redirect_uri.clone(),
    }
}

/// The session id that a request carries.
pub open spec fn session_id_of(req: RequestView) -> Option<Seq<char>> {
    match req.cookie {
        None => None,
        Some(header) => cookie(header, COOKIE_NAME@),
    }
}

/// The session id that a request carries.
pub fn session_id(req: &Request) -> (r: Option<String>)
    ensures
        text_opt(r) == session_id_of(req@),
{
    match &req.cookie {
        None => None,
        Some(header) => match cookie_value(header.as_str(), COOKIE_NAME) {
            Some(v) => Some(v.to_owned()),
            None => None,
        },
    }
}

/// Where a browser without a session goes: to the login, with the way back.
pub open spec fn login_location(path: Seq<char>) -> Seq<char> {
    "/login?"@ + form_query(seq![("return_to"@, path)])
}

/// Sends a browser without a session to the login, with the way back.
pub fn login_redirect(path: &str) -> (r: Result<Response, AuthError>)
    ensures
        r matches Ok(resp) && resp@ == redirect_view(login_location(path@)),
{
    let mut pairs: Vec<(String, String)> = Vec::new();
    add_pair(&mut pairs, "return_to", path);
    assert(pair_texts(pairs@) == seq![("return_to"@, path@)]);
    let mut location = "/login?".to_owned();
    location.append(to_query(&pairs).as_str());
    redirect(location.as_str())
}

// ---------------------------------------------------------------------------
// Login
// ---------------------------------------------------------------------------

/// What the provider is asked when a login begins: the secret part, the verifier, is not in it.
pub open spec fn authorize_pairs(cfg: ConfigView, start: PkceStartView) -> Seq<
    (Seq<char>, Seq<char>),
> {
    seq![
        ("response_type"@, "code"@),
        ("client_id"@, cfg.client_id),
        ("redirect_uri"@, cfg.redirect_uri),
        ("scope"@, cfg.scopes),
        ("state"@, start.state),
        ("nonce"@, start.nonce),
        ("code_challenge"@, start.code_challenge),
        ("code_challenge_method"@, "S256"@),
    ]
}

/// Where the browser goes to log in.
pub open spec fn authorize_location(
    endpoint: Seq<char>,
    cfg: ConfigView,
    start: PkceStartView,
) -> Seq<char> {
    endpoint + "?"@ + form_query(authorize_pairs(cfg, start))
}

/// Where the browser goes to log in.
pub fn authorize_url(endpoint: &str, cfg: &Config, start: &PkceStart) -> (r: String)
    ensures
        r@ == authorize_location(endpoint@, cfg@, start@),
{
    let mut pairs: Vec<(String, String)> = Vec::new();
    add_pair(&mut pairs, "response_type", "code");
    add_pair(&mut pairs, "client_id", cfg.client_id.as_str());
    add_pair(&mut pairs, "redirect_uri", cfg.redirect_uri.as_str());
    add_pair(&mut pairs, "scope", cfg.scopes.as_str());
    add_pair(&mut pairs, "state", start.state.as_str());
    add_pair(&mut pairs, "nonce", start.nonce.as_str());
    add_pair(&mut pairs, "code_challenge", start.code_challenge.as_str());
    add_pair(&mut pairs, "code_challenge_method", "S256");
    assert(pair_texts(pairs@) == authorize_pairs(cfg@, start@));
    let mut location = endpoint.to_owned();
    location.append("?");
    location.append(to_query(&pairs).as_str());
    location
}

/// Where the browser goes after a login that was asked for with the parameter `return_to`.
pub open spec fn return_target(return_to: Option<Seq<char>>) -> Seq<char> {
    match return_to {
        Some(v) => sanitized(v),
        None => "/"@,
    }
}

/// How a login begins.
pub open spec fn login_start(return_to: Option<Seq<char>>, cfg: ConfigView) -> StepView {
    StepView::Act(
        FlowView::Login(
            LoginStateView::Meta { meta: meta_start(cfg).0, return_to: return_target(return_to) },
        ),
        meta_start(cfg).1,
    )
}

/// What a login comes to when the provider's record is there: the pending login is written, and
/// then the browser goes to the provider.
pub open spec fn login_ready(
    meta: TenantMetaView,
    begun: Result<(PkceStartView, PkceRecordView), AuthErrorView>,
    cfg: ConfigView,
) -> StepView {
    match begun {
        Err(f) => StepView::Fail(f),
        Ok((start, rec)) => StepView::Act(
            FlowView::Login(
                LoginStateView::Save {
                    location: authorize_location(meta.authorization_endpoint, cfg, start),
                },
            ),
            ActionView::WritePkce { key: pkce_key_text(start.state), record: rec },
        ),
    }
}

/// Is `r` what comes next in a login, given the outcome of the last action?
pub open spec fn login_goes(
    st: LoginStateView,
    ev: EventView,
    cfg: ConfigView,
    now: u64,
    r: StepView,
) -> bool {
    match st {
        LoginStateView::Meta { meta, return_to } => match meta_next(meta, ev, cfg, now) {
            MetaNextView::Act(next, act) => r == StepView::Act(
                FlowView::Login(LoginStateView::Meta { meta: next, return_to }),
                act,
            ),
            MetaNextView::Failed(f) => r == StepView::Fail(f),
            MetaNextView::Ready(m) => exists|b: Result<(PkceStartView, PkceRecordView), AuthErrorView>|
                #[trigger] begun(b, return_to, now) && r == login_ready(m, b, cfg),
        },
        LoginStateView::Save { location } => r == match ev {
            EventView::Done => StepView::Respond(redirect_view(location)),
            EventView::Failed(e) => StepView::Fail(store_fault(e)),
            _ => StepView::Fail(outcome_fault()),
        },
    }
}

/// Begins a login. `return_to` is the parameter of that name.
pub fn login(return_to: Option<String>, cfg: &Config) -> (r: Step)
    ensures
        r@ == login_start(text_opt(return_to), cfg@),
{
    let target = match return_to {
        Some(v) => sanitize_return_to(v.as_str()),
        None => "/".to_owned(),
    };
    let (meta, act) = get_meta(cfg);
    Step::Act(Flow::Login(LoginState::Meta { meta, return_to: target }), act)
}

/// Sends the browser to the provider, once the pending login is written.
pub fn login_with(
    meta: &TenantMeta,
    begun: Result<(PkceStart, PkceRecord), AuthError>,
    cfg: &Config,
) -> (r: Step)
    ensures
        r@ == login_ready(meta@, begin_outcome(begun), cfg@),
{
    match begun {
        Err(e) => Step::Fail(e),
        Ok((start, record)) => {
            let location = authorize_url(meta.authorization_endpoint.as_str(), cfg, &start);
            Step::Act(
                Flow::Login(LoginState::Save { location }),
                Action::WritePkce { key: pkce_key(start.state.as_str()), record },
            )
        },
    }
}

/// What comes next in a login at `now`, given the outcome of the last action.
pub fn login_step(st: LoginState, ev: Event, cfg: &Config, now: u64) -> (r: Step)
    ensures
        login_goes(st@, ev@, cfg@, now, r@),
{
    match st {
        LoginState::Meta { meta, return_to } => match meta_step(meta, ev, cfg, now) {
            MetaNext::Act(next, act) => Step::Act(
                Flow::Login(LoginState::Meta { meta: next, return_to }),
                act,
            ),
            MetaNext::Failed(e) => Step::Fail(e),
            MetaNext::Ready(m) => {
                let begun = begin_at(return_to.as_str(), now);
                login_with(&m, begun, cfg)
            },
        },
        LoginState::Save { location } => match ev {
            Event::Done => respond(redirect(location.as_str())),
            Event::Failed(e) => Step::Fail(store_error(e)),
            _ => Step::Fail(unexpected()),
        },
    }
}

// ---------------------------------------------------------------------------
// Callback
// ---------------------------------------------------------------------------

/// What the provider said went wrong.
pub open spec fn provider_error_text(error: Seq<char>, description: Option<Seq<char>>) -> Seq<
    char,
> {
    "IdP returned error: "@ + error + " "@ + match description {
        Some(d) => d,
        None => seq![],
    }
}

/// How the return from the provider begins, given the parameters `error`, `error_description`,
/// `code` and `state`.
pub open spec fn callback_start(
    error: Option<Seq<char>>,
    description: Option<Seq<char>>,
    code: Option<Seq<char>>,
    state: Option<Seq<char>>,
) -> StepView {
    match (error, code, state) {
        (Some(e), _, _) => StepView::Respond(text_view(401, provider_error_text(e, description))),
        (None, None, _) => StepView::Fail(fault(ErrorKind::MissingCode, "missing code"@)),
        (None, Some(_), None) => StepView::Fail(fault(ErrorKind::MissingState, "missing state"@)),
        (None, Some(c), Some(s)) => StepView::Act(
            FlowView::Callback(CallbackStateView::Take { code: c, state: s }),
            ActionView::ReadPkce { key: pkce_key_text(s) },
        ),
    }
}

/// Begins the return from the provider, given the parameters of those names.
pub fn callback(
    error: Option<String>,
    description: Option<String>,
    code: Option<String>,
    state: Option<String>,
) -> (r: Step)
    ensures
        r@ == callback_start(
            text_opt(error),
            text_opt(description),
            text_opt(code),
            text_opt(state),
        ),
{
    if let Some(e) = error {
        let mut body = "IdP returned error: ".to_owned();
        body.append(e.as_str());
        body.append(" ");
        if let Some(d) = &description {
            body.append(d.as_str());
        }
        assert(body@ == provider_error_text(e@, text_opt(description)));
        return Step::Respond(text(401, body));
    }
    let code = match code {
        Some(c) => c,
        None => return Step::Fail(AuthError::plain(ErrorKind::MissingCode, "missing code")),
    };
    let state = match state {
        Some(s) => s,
        None => return Step::Fail(AuthError::plain(ErrorKind::MissingState, "missing state")),
    };
    let key = pkce_key(state.as_str());
    Step::Act(Flow::Callback(CallbackState::Take { code, state }), Action::ReadPkce { key })
}

/// What the token endpoint is told: the code, who we are, and the verifier.
pub open spec fn exchange_pairs(cfg: ConfigView, code: Seq<char>, verifier: Seq<char>) -> Seq<
    (Seq<char>, Seq<char>),
> {
    seq![
        ("grant_type"@, "authorization_code"@),
        ("code"@, code),
        ("redirect_uri"@, cfg.redirect_uri),
        ("client_id"@, cfg.client_id),
        ("client_secret"@, cfg.client_secret),
        ("code_verifier"@, verifier),
    ]
}

/// The request that exchanges a code for a token.
pub open spec fn exchange_request(
    cfg: ConfigView,
    endpoint: Seq<char>,
    code: Seq<char>,
    verifier: Seq<char>,
) -> OutRequestView {
    OutRequestView {
        method: Method::Post,
        uri: endpoint,
        headers: seq![
            ("content-type"@, "application/x-www-form-urlencoded"@),
            ("accept"@, "application/json"@),
        ],
        body: form_query(exchange_pairs(cfg, code, verifier)),
    }
}

/// The request that exchanges a code for a token.
pub fn exchange_code(cfg: &Config, token_endpoint: &str, code: &str, verifier: &str) -> (r:
    OutRequest)
    ensures
        r@ == exchange_request(cfg@, token_endpoint@, code@, verifier@),
{
    let mut pairs: Vec<(String, String)> = Vec::new();
    add_pair(&mut pairs, "grant_type", "authorization_code");
    add_pair(&mut pairs, "code", code);
    add_pair(&mut pairs, "redirect_uri", cfg.redirect_uri.as_str());
    add_pair(&mut pairs, "client_id", cfg.client_id.as_str());
    add_pair(&mut pairs, "client_secret", cfg.client_secret.as_str());
    add_pair(&mut pairs, "code_verifier", verifier);
    assert(pair_texts(pairs@) == exchange_pairs(cfg@, code@, verifier@));
    let mut headers: Vec<(String, String)> = Vec::new();
    add_pair(&mut headers, "content-type", "application/x-www-form-urlencoded");
    add_pair(&mut headers, "accept", "application/json");
    let r = OutRequest {
        method: Method::Post,
        uri: token_endpoint.to_owned(),
        headers,
        body: to_query(&pairs),
    };
    assert(r@.headers == exchange_request(cfg@, token_endpoint@, code@, verifier@).headers);
    r
}

/// The token in a reply of the token endpoint, given its status, its body as text, and what the
/// body was read as.
pub open spec fn token_in(
    status: u16,
    body: Seq<char>,
    parsed: Result<Seq<(Seq<char>, Option<Seq<char>>)>, Seq<char>>,
) -> Result<Seq<char>, AuthErrorView> {
    if !is_success(status) {
        Err(
            fault(
                ErrorKind::TokenEndpoint,
                "token endpoint -> HTTP "@ + decimal(status as nat) + ": "@ + body,
            ),
        )
    } else {
        match parsed {
            Err(e) => Err(fault(ErrorKind::Json, e)),
            Ok(doc) => match member_text(doc, "id_token"@) {
                None => Err(fault(ErrorKind::NoIdToken, "token response has no id_token"@)),
                Some(t) => Ok(t),
            },
        }
    }
}

/// What an outcome with a text says.
pub open spec fn text_outcome(r: Result<String, AuthError>) -> Result<Seq<char>, AuthErrorView> {
    match r {
        Ok(t) => Ok(t@),
        Err(e) => Err(e@),
    }
}

/// The token in a reply of the token endpoint, given its status, its body as text, and what the
/// body was read as.
pub fn token_reply(status: u16, body: &str, parsed: Result<JsonObject, String>) -> (r: Result<
    String,
    AuthError,
>)
    ensures
        text_outcome(r) == token_in(status, body@, members_of(parsed)),
{
    if status < 200 || status >= 300 {
        let mut message = "token endpoint -> HTTP ".to_owned();
        message.append(decimal_text(status as u64).as_str());
        message.append(": ");
        message.append(body);
        return Err(AuthError { kind: ErrorKind::TokenEndpoint, message });
    }
    match parsed {
        Err(message) => Err(AuthError { kind: ErrorKind::Json, message }),
        Ok(doc) => match doc.text("id_token") {
            Some(t) => Ok(t),
            None => Err(AuthError::plain(ErrorKind::NoIdToken, "token response has no id_token")),
        },
    }
}

/// What a reply of the token endpoint comes to: the header of the token is read next.
pub open spec fn token_next(
    rec: PkceRecordView,
    token: Result<Seq<char>, AuthErrorView>,
) -> StepView {
    match token {
        Err(f) => StepView::Fail(f),
        Ok(id_token) => match b64url_decoded(split(id_token, '.')[0]) {
            Err(f) => StepView::Fail(f),
            Ok(json) => StepView::Act(
                FlowView::Callback(CallbackStateView::Header { rec, id_token }),
                ActionView::DecodeHeader { json },
            ),
        },
    }
}

/// What a token comes to, once its key is there: where the signature holds, the claims are read.
pub open spec fn key_found(
    rec: PkceRecordView,
    id_token: Seq<char>,
    header: HeaderView,
    jwk: JwkView,
) -> StepView {
    match token_payload(id_token, Ok(header), jwk) {
        Err(f) => StepView::Fail(f),
        Ok(json) => StepView::Act(
            FlowView::Callback(CallbackStateView::Claims { rec, id_token, header, jwk }),
            ActionView::DecodeClaims { json },
        ),
    }
}

/// What a token that holds comes to: the session is written, and then the browser goes back to
/// where the login began.
pub open spec fn session_ready(
    return_to: Seq<char>,
    created: Result<(Seq<char>, SessionView), AuthErrorView>,
) -> StepView {
    match created {
        Err(f) => StepView::Fail(f),
        Ok((sid, sess)) => StepView::Act(
            FlowView::Callback(CallbackStateView::Save { sid, return_to }),
            ActionView::WriteSession { key: sess_key_text(sid), record: sess },
        ),
    }
}

/// What comes after the claims of a token were read: is `r` a step that creates a session where
/// the claims hold, and the refusal where they do not?
pub open spec fn claims_goes(
    rec: PkceRecordView,
    id_token: Seq<char>,
    claims: ClaimsView,
    cfg: ConfigView,
    now: u64,
    r: StepView,
) -> bool {
    match claims_fault(claims, cfg, rec.nonce, now) {
        Some(f) => r == StepView::Fail(f),
        None => exists|b: Result<(Seq<char>, SessionView), AuthErrorView>| #[trigger]
            created(b, cfg, claims.sub, claims.email, claims.groups, id_token, now) && r
                == session_ready(rec.return_to, b),
    }
}

/// What comes after the pending login was asked for: one that was found is deleted at once.
pub open spec fn take_next(code: Seq<char>, state: Seq<char>, ev: EventView) -> StepView {
    match ev {
        EventView::Pkce(Some(found)) => StepView::Act(
            FlowView::Callback(CallbackStateView::Spend { code, found }),
            ActionView::Delete { key: pkce_key_text(state) },
        ),
        EventView::Pkce(None) => StepView::Fail(
            fault(ErrorKind::UnknownState, "unknown or expired state"@),
        ),
        EventView::Failed(e) => StepView::Fail(store_fault(e)),
        _ => StepView::Fail(outcome_fault()),
    }
}

/// What comes after the pending login was deleted.
pub open spec fn spend_next(
    code: Seq<char>,
    found: Result<PkceRecordView, Seq<char>>,
    ev: EventView,
    cfg: ConfigView,
    now: u64,
) -> StepView {
    match ev {
        EventView::Done => match pending_fault(Some(found), now) {
            Some(f) => StepView::Fail(f),
            None => StepView::Act(
                FlowView::Callback(
                    CallbackStateView::Meta { code, rec: found->Ok_0, meta: meta_start(cfg).0 },
                ),
                meta_start(cfg).1,
            ),
        },
        EventView::Failed(e) => StepView::Fail(store_fault(e)),
        _ => StepView::Fail(outcome_fault()),
    }
}

/// Is `r` what comes next in the return from the provider, given the outcome of the last action?
pub open spec fn callback_goes(
    st: CallbackStateView,
    ev: EventView,
    cfg: ConfigView,
    now: u64,
    r: StepView,
) -> bool {
    match st {
        CallbackStateView::Take { code, state } => r == take_next(code, state, ev),
        CallbackStateView::Spend { code, found } => r == spend_next(code, found, ev, cfg, now),
        CallbackStateView::Meta { code, rec, meta } => r == match meta_next(meta, ev, cfg, now) {
            MetaNextView::Act(next, act) => StepView::Act(
                FlowView::Callback(CallbackStateView::Meta { code, rec, meta: next }),
                act,
            ),
            MetaNextView::Failed(f) => StepView::Fail(f),
            MetaNextView::Ready(m) => StepView::Act(
                FlowView::Callback(CallbackStateView::Exchange { rec }),
                ActionView::Send(exchange_request(cfg, m.token_endpoint, code, rec.verifier)),
            ),
        },
        CallbackStateView::Exchange { rec } => r == match ev {
            EventView::Reply { status, cache_control, body } => token_next(
                rec,
                token_in(status, lossy(body), json_members(body)),
            ),
            EventView::Failed(e) => StepView::Fail(
                fault(ErrorKind::TokenEndpoint, "token endpoint: "@ + e),
            ),
            _ => StepView::Fail(outcome_fault()),
        },
        CallbackStateView::Header { rec, id_token } => r == match ev {
            EventView::Header(Ok(header)) => StepView::Act(
                FlowView::Callback(
                    CallbackStateView::Key { rec, id_token, header, key: key_start(cfg).0 },
                ),
                key_start(cfg).1,
            ),
            EventView::Header(Err(e)) => StepView::Fail(fault(ErrorKind::Json, e)),
            _ => StepView::Fail(outcome_fault()),
        },
        CallbackStateView::Key { rec, id_token, header, key } => r == match key_next(
            header.kid,
            key,
            ev,
            cfg,
            now,
        ) {
            KeyNextView::Act(next, act) => StepView::Act(
                FlowView::Callback(CallbackStateView::Key { rec, id_token, header, key: next }),
                act,
            ),
            KeyNextView::Failed(f) => StepView::Fail(f),
            KeyNextView::Found(jwk) => key_found(rec, id_token, header, jwk),
        },
        CallbackStateView::Claims { rec, id_token, header, jwk } => match ev {
            EventView::Claims(Ok(claims)) => claims_goes(rec, id_token, claims, cfg, now, r),
            EventView::Claims(Err(e)) => r == StepView::Fail(fault(ErrorKind::Json, e)),
            _ => r == StepView::Fail(outcome_fault()),
        },
        CallbackStateView::Save { sid, return_to } => r == match ev {
            EventView::Done => StepView::Respond(
                redirect_with_cookie_view(return_to, cookie_for(sid, cfg.session_ttl_secs)),
            ),
            EventView::Failed(e) => StepView::Fail(store_fault(e)),
            _ => StepView::Fail(outcome_fault()),
        },
    }
}

/// Goes on from a reply of the token endpoint.
pub fn token_step(rec: PkceRecord, token: Result<String, AuthError>) -> (r: Step)
    ensures
        r@ == token_next(rec@, text_outcome(token)),
{
    match token {
        Err(e) => Step::Fail(e),
        Ok(id_token) => match header_bytes(id_token.as_str()) {
            Err(e) => Step::Fail(e),
            Ok(json) => Step::Act(
                Flow::Callback(CallbackState::Header { rec, id_token }),
                Action::DecodeHeader { json },
            ),
        },
    }
}

/// Goes on from the key of a token.
pub fn key_found_step(rec: PkceRecord, id_token: String, header: Header, jwk: Jwk) -> (r: Step)
    ensures
        r@ == key_found(rec@, id_token@, header@, jwk@),
{
    match verify_token(id_token.as_str(), &header, &jwk) {
        Err(e) => Step::Fail(e),
        Ok(json) => Step::Act(
            Flow::Callback(CallbackState::Claims { rec, id_token, header, jwk }),
            Action::DecodeClaims { json },
        ),
    }
}

/// Sends the browser back with its session, once that is written.
pub fn session_step(return_to: String, created: Result<(String, Session), AuthError>) -> (r: Step)
    ensures
        r@ == session_ready(return_to@, create_outcome(created)),
{
    match created {
        Err(e) => Step::Fail(e),
        Ok((sid, record)) => {
            let key = sess_key(sid.as_str());
            Step::Act(
                Flow::Callback(CallbackState::Save { sid, return_to }),
                Action::WriteSession { key, record },
            )
        },
    }
}

/// Goes on from the claims of a token whose signature holds.
pub fn claims_step(
    rec: PkceRecord,
    id_token: String,
    claims: Claims,
    cfg: &Config,
    now: u64,
) -> (r: Step)
    ensures
        claims_goes(rec@, id_token@, claims@, cfg@, now, r@),
{
    match check_claims_at(claims, cfg, rec.nonce.as_str(), now) {
        Err(e) => Step::Fail(e),
        Ok(c) => {
            let fresh = create_at(cfg, c.sub, c.email, c.groups, id_token, now);
            assert(created(
                create_outcome(fresh),
                cfg@,
                claims@.sub,
                claims@.email,
                claims@.groups,
                id_token@,
                now,
            ));
            session_step(rec.return_to, fresh)
        },
    }
}

/// Goes on from what was found of the pending login.
pub fn spend_step(
    code: String,
    found: Result<PkceRecord, String>,
    cfg: &Config,
    now: u64,
) -> (r: Step)
    ensures
        r@ == spend_next(code@, record_outcome(found), EventView::Done, cfg@, now),
{
    match take_at(Some(found), now) {
        Err(e) => Step::Fail(e),
        Ok(rec) => {
            let (meta, act) = get_meta(cfg);
            Step::Act(Flow::Callback(CallbackState::Meta { code, rec, meta }), act)
        },
    }
}

/// What comes next in the return from the provider at `now`, given the outcome of the last action.
pub fn callback_step(st: CallbackState, ev: Event, cfg: &Config, now: u64) -> (r: Step)
    ensures
        callback_goes(st@, ev@, cfg@, now, r@),
{
    match (st, ev) {
        (CallbackState::Take { code, state }, Event::Pkce(Some(found))) => {
            let key = pkce_key(state.as_str());
            Step::Act(Flow::Callback(CallbackState::Spend { code, found }), Action::Delete { key })
        },
        (CallbackState::Take { .. }, Event::Pkce(None)) => Step::Fail(
            AuthError::plain(ErrorKind::UnknownState, "unknown or expired state"),
        ),
        (CallbackState::Take { .. }, Event::Failed(e)) => Step::Fail(store_error(e)),
        (CallbackState::Spend { code, found }, Event::Done) => spend_step(code, found, cfg, now),
        (CallbackState::Spend { .. }, Event::Failed(e)) => Step::Fail(store_error(e)),
        (CallbackState::Meta { code, rec, meta }, ev) => match meta_step(meta, ev, cfg, now) {
            MetaNext::Act(next, act) => Step::Act(
                Flow::Callback(CallbackState::Meta { code, rec, meta: next }),
                act,
            ),
            MetaNext::Failed(e) => Step::Fail(e),
            MetaNext::Ready(m) => {
                let request = exchange_code(
                    cfg,
                    m.token_endpoint.as_str(),
                    code.as_str(),
                    rec.verifier.as_str(),
                );
                Step::Act(
                    Flow::Callback(CallbackState::Exchange { rec }),
                    Action::Send(request),
                )
            },
        },
        (CallbackState::Exchange { rec }, Event::Reply { status, cache_control: _, body }) => {
            let shown = lossy_text(body.as_slice());
            let parsed = read_json(body.as_slice());
            token_step(rec, token_reply(status, shown.as_str(), parsed))
        },
        (CallbackState::Exchange { .. }, Event::Failed(e)) => Step::Fail(
            AuthError::with_detail(ErrorKind::TokenEndpoint, "token endpoint: ", e.as_str()),
        ),
        (CallbackState::Header { rec, id_token }, Event::Header(Ok(header))) => {
            let (key, act) = signing_key(cfg);
            Step::Act(Flow::Callback(CallbackState::Key { rec, id_token, header, key }), act)
        },
        (CallbackState::Header { .. }, Event::Header(Err(message))) => Step::Fail(
            AuthError { kind: ErrorKind::Json, message },
        ),
        (CallbackState::Key { rec, id_token, header, key }, ev) => match key_step(
            &header.kid,
            key,
            ev,
            cfg,
            now,
        ) {
            KeyNext::Act(next, act) => Step::Act(
                Flow::Callback(CallbackState::Key { rec, id_token, header, key: next }),
                act,
            ),
            KeyNext::Failed(e) => Step::Fail(e),
            KeyNext::Found(jwk) => key_found_step(rec, id_token, header, jwk),
        },
        (CallbackState::Claims { rec, id_token, .. }, Event::Claims(Ok(claims))) => claims_step(
            rec,
            id_token,
            claims,
            cfg,
            now,
        ),
        (CallbackState::Claims { .. }, Event::Claims(Err(message))) => Step::Fail(
            AuthError { kind: ErrorKind::Json, message },
        ),
        (CallbackState::Save { sid, return_to }, Event::Done) => {
            let cookie = set_cookie(sid.as_str(), cfg.session_ttl_secs);
            respond(redirect_with_cookie(return_to.as_str(), cookie.as_str()))
        },
        (CallbackState::Save { .. }, Event::Failed(e)) => Step::Fail(store_error(e)),
        _ => Step::Fail(unexpected()),
    }
}

// ---------------------------------------------------------------------------
// Logout
// ---------------------------------------------------------------------------

/// What the provider is told when it is to end its own session: whose, or else which client asks.
pub open spec fn logout_pairs(cfg: ConfigView, hint: Option<Seq<char>>) -> Seq<
    (Seq<char>, Seq<char>),
> {
    let back = ("post_logout_redirect_uri"@, app_base_text(cfg.redirect_uri) + "/login"@);
    match hint {
        Some(t) if t.len() > 0 => seq![back, ("id_token_hint"@, t)],
        _ => seq![back, ("client_id"@, cfg.client_id)],
    }
}

/// Where the browser goes after a logout: to the provider, so that its session ends too, or to the
/// login where the provider has no endpoint for that.
pub open spec fn logout_location(
    endpoint: Seq<char>,
    cfg: ConfigView,
    hint: Option<Seq<char>>,
) -> Seq<char> {
    if endpoint.len() == 0 {
        "/login"@
    } else {
        endpoint + "?"@ + form_query(logout_pairs(cfg, hint))
    }
}

/// Where the browser goes after a logout.
pub fn logout_url(endpoint: &str, cfg: &Config, hint: &Option<String>) -> (r: String)
    ensures
        r@ == logout_location(endpoint@, cfg@, text_opt(*hint)),
{
    if endpoint.is_empty() {
        return "/login".to_owned();
    }
    let mut back = app_base(cfg);
    back.append("/login");
    let mut pairs: Vec<(String, String)> = Vec::new();
    add_pair(&mut pairs, "post_logout_redirect_uri", back.as_str());
    match hint {
        Some(t) => {
            if t.as_str().is_empty() {
                add_pair(&mut pairs, "client_id", cfg.client_id.as_str());
            } else {
                add_pair(&mut pairs, "id_token_hint", t.as_str());
            }
        },
        None => {
            add_pair(&mut pairs, "client_id", cfg.client_id.as_str());
        },
    }
    assert(pair_texts(pairs@) == logout_pairs(cfg@, text_opt(*hint)));
    let mut location = endpoint.to_owned();
    location.append("?");
    location.append(to_query(&pairs).as_str());
    location
}

/// How a logout begins, given the session id of the request.
pub open spec fn logout_start(sid: Option<Seq<char>>, cfg: ConfigView) -> StepView {
    match sid {
        Some(id) => StepView::Act(
            FlowView::Logout(LogoutStateView::Lookup { sid: id }),
            ActionView::ReadSession { key: sess_key_text(id) },
        ),
        None => StepView::Act(
            FlowView::Logout(LogoutStateView::Meta { hint: None, meta: meta_start(cfg).0 }),
            meta_start(cfg).1,
        ),
    }
}

/// The step that deletes a session on the way out.
pub open spec fn revoke_step(sid: Seq<char>, hint: Option<Seq<char>>) -> StepView {
    StepView::Act(
        FlowView::Logout(LogoutStateView::Revoke { sid, hint }),
        ActionView::Delete { key: sess_key_text(sid) },
    )
}

/// What comes next in a logout at `now`, given the outcome of the last action.
pub open spec fn logout_next(
    st: LogoutStateView,
    ev: EventView,
    cfg: ConfigView,
    now: u64,
) -> StepView {
    match (st, ev) {
        (LogoutStateView::Lookup { sid }, EventView::Session(found)) => match looked_up(
            found,
            now,
        ) {
            Err(f) => StepView::Fail(f),
            Ok(LookupView::Absent) => revoke_step(sid, None),
            Ok(LookupView::Expired) => StepView::Act(
                FlowView::Logout(LogoutStateView::Expire { sid }),
                ActionView::Delete { key: sess_key_text(sid) },
            ),
            Ok(LookupView::Live(s)) => revoke_step(sid, Some(s.id_token)),
        },
        (LogoutStateView::Lookup { sid }, EventView::Failed(e)) => StepView::Fail(store_fault(e)),
        (LogoutStateView::Expire { sid }, EventView::Done) => revoke_step(sid, None),
        (LogoutStateView::Expire { sid }, EventView::Failed(e)) => StepView::Fail(store_fault(e)),
        (LogoutStateView::Revoke { sid, hint }, EventView::Done) => StepView::Act(
            FlowView::Logout(LogoutStateView::Meta { hint, meta: meta_start(cfg).0 }),
            meta_start(cfg).1,
        ),
        (LogoutStateView::Revoke { sid, hint }, EventView::Failed(e)) => StepView::Fail(
            store_fault(e),
        ),
        (LogoutStateView::Meta { hint, meta }, ev) => match meta_next(meta, ev, cfg, now) {
            MetaNextView::Act(next, act) => StepView::Act(
                FlowView::Logout(LogoutStateView::Meta { hint, meta: next }),
                act,
            ),
            MetaNextView::Failed(f) => StepView::Fail(f),
            MetaNextView::Ready(m) => StepView::Respond(
                redirect_with_cookie_view(
                    logout_location(m.end_session_endpoint, cfg, hint),
                    cleared_cookie(),
                ),
            ),
        },
        _ => StepView::Fail(outcome_fault()),
    }
}

/// Begins a logout, given the session id of the request.
pub fn logout(sid: Option<String>, cfg: &Config) -> (r: Step)
    ensures
        r@ == logout_start(text_opt(sid), cfg@),
{
    match sid {
        Some(id) => {
            let key = sess_key(id.as_str());
            Step::Act(
                Flow::Logout(LogoutState::Lookup { sid: id }),
                Action::ReadSession { key },
            )
        },
        None => {
            let (meta, act) = get_meta(cfg);
            Step::Act(Flow::Logout(LogoutState::Meta { hint: None, meta }), act)
        },
    }
}

/// What comes next in a logout at `now`, given the outcome of the last action.
pub fn logout_step(st: LogoutState, ev: Event, cfg: &Config, now: u64) -> (r: Step)
    ensures
        r@ == logout_next(st@, ev@, cfg@, now),
{
    match (st, ev) {
        (LogoutState::Lookup { sid }, Event::Session(found)) => {
            let act = revoke(sid.as_str());
            match lookup_at(found, now) {
                Err(e) => Step::Fail(e),
                Ok(Lookup::Absent) => Step::Act(
                    Flow::Logout(LogoutState::Revoke { sid, hint: None }),
                    act,
                ),
                Ok(Lookup::Expired) => Step::Act(Flow::Logout(LogoutState::Expire { sid }), act),
                Ok(Lookup::Live(s)) => Step::Act(
                    Flow::Logout(LogoutState::Revoke { sid, hint: Some(s.id_token) }),
                    act,
                ),
            }
        },
        (LogoutState::Lookup { .. }, Event::Failed(e)) => Step::Fail(store_error(e)),
        (LogoutState::Expire { sid }, Event::Done) => {
            let act = revoke(sid.as_str());
            Step::Act(Flow::Logout(LogoutState::Revoke { sid, hint: None }), act)
        },
        (LogoutState::Expire { .. }, Event::Failed(e)) => Step::Fail(store_error(e)),
        (LogoutState::Revoke { sid: _, hint }, Event::Done) => {
            let (meta, act) = get_meta(cfg);
            Step::Act(Flow::Logout(LogoutState::Meta { hint, meta }), act)
        },
        (LogoutState::Revoke { .. }, Event::Failed(e)) => Step::Fail(store_error(e)),
        (LogoutState::Meta { hint, meta }, ev) => match meta_step(meta, ev, cfg, now) {
            MetaNext::Act(next, act) => Step::Act(
                Flow::Logout(LogoutState::Meta { hint, meta: next }),
                act,
            ),
            MetaNext::Failed(e) => Step::Fail(e),
            MetaNext::Ready(m) => {
                let location = logout_url(m.end_session_endpoint.as_str(), cfg, &hint);
                respond(redirect_with_cookie(location.as_str(), clear_cookie().as_str()))
            },
        },
        _ => Step::Fail(unexpected()),
    }
}

// ---------------------------------------------------------------------------
// Everything else
// ---------------------------------------------------------------------------

/// Where the control plane listens. Only this application reaches it there.
pub const CONTROL_PLANE: &'static str = "http://cp-landing.spin.internal/__cp/";

/// May somebody with these groups pass?
pub open spec fn authorized(groups: Seq<Seq<char>>, cfg: ConfigView) -> bool {
    groups.contains(cfg.admin_group)
}

/// What somebody is told who may not pass.
pub open spec fn forbidden_text(cfg: ConfigView, sess: SessionView) -> Seq<char> {
    "403 Forbidden: '"@ + cfg.admin_group + "' is required to access the control plane.\nYou are '"@
        + sess.email + "' with groups "@ + shown_list(sess.groups) + "."@
}

/// What somebody is told who may not pass.
pub fn forbidden(cfg: &Config, sess: &Session) -> (r: Response)
    ensures
        r@ == text_view(403, forbidden_text(cfg@, sess@)),
{
    let mut body = "403 Forbidden: '".to_owned();
    body.append(cfg.admin_group.as_str());
    body.append("' is required to access the control plane.\nYou are '");
    body.append(sess.email.as_str());
    body.append("' with groups ");
    body.append(show_list(&sess.groups).as_str());
    body.append(".");
    text(403, body)
}

/// The request to the control plane: it carries the secret and who is asking.
pub open spec fn forward_request(cfg: ConfigView, sess: SessionView) -> OutRequestView {
    OutRequestView {
        method: Method::Get,
        uri: CONTROL_PLANE@,
        headers: seq![
            ("x-cp-forward-secret"@, cfg.cp_forward_secret),
            ("x-auth-sub"@, sess.sub),
            ("x-auth-email"@, sess.email),
            ("x-auth-groups"@, join(sess.groups, ","@)),
        ],
        body: seq![],
    }
}

/// The request to the control plane: it carries the secret and who is asking.
pub fn forward_to_cp(cfg: &Config, sess: &Session) -> (r: OutRequest)
    ensures
        r@ == forward_request(cfg@, sess@),
{
    let mut headers: Vec<(String, String)> = Vec::new();
    add_pair(&mut headers, "x-cp-forward-secret", cfg.cp_forward_secret.as_str());
    add_pair(&mut headers, "x-auth-sub", sess.sub.as_str());
    add_pair(&mut headers, "x-auth-email", sess.email.as_str());
    let groups = joined(&sess.groups, ",");
    add_pair(&mut headers, "x-auth-groups", groups.as_str());
    let r = OutRequest {
        method: Method::Get,
        uri: CONTROL_PLANE.to_owned(),
        headers,
        body: String::new(),
    };
    assert(r@.headers == forward_request(cfg@, sess@).headers);
    r
}

/// What somebody with a live session comes to.
pub open spec fn admitted(sess: SessionView, cfg: ConfigView) -> StepView {
    if authorized(sess.groups, cfg) {
        StepView::Act(
            FlowView::Protected(ProtectedStateView::Forward),
            ActionView::Forward(forward_request(cfg, sess)),
        )
    } else {
        StepView::Respond(text_view(403, forbidden_text(cfg, sess)))
    }
}

/// How a protected request begins, given its session id and its path.
pub open spec fn protected_start(sid: Option<Seq<char>>, path: Seq<char>) -> StepView {
    match sid {
        None => StepView::Respond(redirect_view(login_location(path))),
        Some(id) => StepView::Act(
            FlowView::Protected(ProtectedStateView::Lookup { sid: id, path }),
            ActionView::ReadSession { key: sess_key_text(id) },
        ),
    }
}

/// What comes next in a protected request at `now`, given the outcome of the last action.
pub open spec fn protected_next(
    st: ProtectedStateView,
    ev: EventView,
    cfg: ConfigView,
    now: u64,
) -> StepView {
    match (st, ev) {
        (ProtectedStateView::Lookup { sid, path }, EventView::Session(found)) => match looked_up(
            found,
            now,
        ) {
            Err(f) => StepView::Fail(f),
            Ok(LookupView::Absent) => StepView::Respond(redirect_view(login_location(path))),
            Ok(LookupView::Expired) => StepView::Act(
                FlowView::Protected(ProtectedStateView::Expire { path }),
                ActionView::Delete { key: sess_key_text(sid) },
            ),
            Ok(LookupView::Live(s)) => admitted(s, cfg),
        },
        (ProtectedStateView::Lookup { sid, path }, EventView::Failed(e)) => StepView::Fail(
            store_fault(e),
        ),
        (ProtectedStateView::Expire { path }, EventView::Done) => StepView::Respond(
            redirect_view(login_location(path)),
        ),
        (ProtectedStateView::Expire { path }, EventView::Failed(e)) => StepView::Fail(
            store_fault(e),
        ),
        (ProtectedStateView::Forward, EventView::Failed(e)) => StepView::Fail(
            fault(ErrorKind::Forward, "forward to CP: "@ + e),
        ),
        _ => StepView::Fail(outcome_fault()),
    }
}

/// Begins a protected request, given its session id and its path.
pub fn protected(sid: Option<String>, path: String) -> (r: Step)
    ensures
        r@ == protected_start(text_opt(sid), path@),
{
    match sid {
        None => respond(login_redirect(path.as_str())),
        Some(id) => {
            let key = sess_key(id.as_str());
            Step::Act(
                Flow::Protected(ProtectedState::Lookup { sid: id, path }),
                Action::ReadSession { key },
            )
        },
    }
}

/// Lets somebody with a live session pass, or tells them why not.
pub fn pass_or_refuse(sess: &Session, cfg: &Config) -> (r: Step)
    ensures
        r@ == admitted(sess@, cfg@),
{
    if listed(&sess.groups, cfg.admin_group.as_str()) {
        Step::Act(
            Flow::Protected(ProtectedState::Forward),
            Action::Forward(forward_to_cp(cfg, sess)),
        )
    } else {
        Step::Respond(forbidden(cfg, sess))
    }
}

/// What comes next in a protected request at `now`, given the outcome of the last action.
pub fn protected_step(st: ProtectedState, ev: Event, cfg: &Config, now: u64) -> (r: Step)
    ensures
        r@ == protected_next(st@, ev@, cfg@, now),
{
    match (st, ev) {
        (ProtectedState::Lookup { sid, path }, Event::Session(found)) => match lookup_at(
            found,
            now,
        ) {
            Err(e) => Step::Fail(e),
            Ok(Lookup::Absent) => respond(login_redirect(path.as_str())),
            Ok(Lookup::Expired) => {
                let act = revoke(sid.as_str());
                Step::Act(Flow::Protected(ProtectedState::Expire { path }), act)
            },
            Ok(Lookup::Live(s)) => pass_or_refuse(&s, cfg),
        },
        (ProtectedState::Lookup { .. }, Event::Failed(e)) => Step::Fail(store_error(e)),
        (ProtectedState::Expire { path }, Event::Done) => respond(login_redirect(path.as_str())),
        (ProtectedState::Expire { .. }, Event::Failed(e)) => Step::Fail(store_error(e)),
        (ProtectedState::Forward, Event::Failed(e)) => Step::Fail(
            AuthError::with_detail(ErrorKind::Forward, "forward to CP: ", e.as_str()),
        ),
        _ => Step::Fail(unexpected()),
    }
}

// ---------------------------------------------------------------------------
// The whole
// ---------------------------------------------------------------------------

/// How a request begins, by its path, given the pairs that its query string holds.
pub open spec fn dispatched(
    req: RequestView,
    pairs: Seq<(Seq<char>, Seq<char>)>,
    cfg: ConfigView,
) -> StepView {
    if req.path == "/login"@ {
        login_start(value_of(pairs, "return_to"@), cfg)
    } else if req.path == "/callback"@ {
        callback_start(
            value_of(pairs, "error"@),
            value_of(pairs, "error_description"@),
            value_of(pairs, "code"@),
            value_of(pairs, "state"@),
        )
    } else if req.path == "/logout"@ {
        logout_start(session_id_of(req), cfg)
    } else {
        protected_start(session_id_of(req), req.path)
    }
}

/// Begins to answer a request. Where its query string was written from pairs, those are what it is
/// answered by.
pub fn dispatch(req: Request, cfg: &Config) -> (r: Step)
    ensures
        r@ == dispatched(req@, form_pairs(req@.query), cfg@),
        forall|pairs: Seq<(Seq<char>, Seq<char>)>| #[trigger]
            form_query(pairs) == req@.query ==> r@ == dispatched(req@, pairs, cfg@),
{
    if same_text(req.path.as_str(), "/login") {
        login(query_param(req.query.as_str(), "return_to"), cfg)
    } else if same_text(req.path.as_str(), "/callback") {
        let q = req.query.as_str();
        callback(
            query_param(q, "error"),
            query_param(q, "error_description"),
            query_param(q, "code"),
            query_param(q, "state"),
        )
    } else if same_text(req.path.as_str(), "/logout") {
        logout(session_id(&req), cfg)
    } else {
        protected(session_id(&req), req.path)
    }
}

/// Is `r` what comes next about a request at `now`, given the outcome of the last action?
pub open spec fn flow_goes(
    flow: FlowView,
    ev: EventView,
    cfg: ConfigView,
    now: u64,
    r: StepView,
) -> bool {
    match flow {
        FlowView::Login(st) => login_goes(st, ev, cfg, now, r),
        FlowView::Callback(st) => callback_goes(st, ev, cfg, now, r),
        FlowView::Logout(st) => r == logout_next(st, ev, cfg, now),
        FlowView::Protected(st) => r == protected_next(st, ev, cfg, now),
    }
}

/// What comes next about a request at `now`, given the outcome of the last action.
pub fn resume_at(flow: Flow, ev: Event, cfg: &Config, now: u64) -> (r: Step)
    ensures
        flow_goes(flow@, ev@, cfg@, now, r@),
{
    match flow {
        Flow::Login(st) => login_step(st, ev, cfg, now),
        Flow::Callback(st) => callback_step(st, ev, cfg, now),
        Flow::Logout(st) => logout_step(st, ev, cfg, now),
        Flow::Protected(st) => protected_step(st, ev, cfg, now),
    }
}

/// What comes next about a request, given the outcome of the last action.
pub fn resume(flow: Flow, ev: Event, cfg: &Config) -> (r: Step)
    ensures
        exists|now: u64| clock_reads(now) && #[trigger] flow_goes(flow@, ev@, cfg@, now, r@),
{
    resume_at(flow, ev, cfg, now_secs())
}

} // verus!
