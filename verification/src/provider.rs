//! Getting at the identity provider's endpoints and keys: from the store where the record there is
//! fresh, from the provider where it is not.

use crate::action::{
    outcome_fault, store_error, store_fault, unexpected, Action, ActionView, Event, EventView,
};
use crate::config::{Config, ConfigView};
use crate::error::{fault, AuthError, AuthErrorView, ErrorKind};
use crate::http::{Method, OutRequest, OutRequestView};
use crate::json::{json_members, member, member_text, members_of, read_json, JsonObject};
use crate::jwks::{
    elapsed, is_fresh, key_for, key_views, max_age, meta_key, meta_key_text, missing_field,
    parse_max_age, str_field, Jwk, JwkView, TenantMeta, TenantMetaView, DEFAULT_JWKS_MAX_AGE_SECS,
    KID_MISS_REFETCH_COOLDOWN_SECS,
};
use crate::text::{decimal, decimal_text, text_opt};
use vstd::prelude::*;

verus! {

/// The endpoints that a discovery document names.
#[derive(Debug)]
pub struct Discovery {
    pub issuer: String,
    pub authorization_endpoint: String,
    pub token_endpoint: String,
    pub end_session_endpoint: String,
    pub jwks_uri: String,
}

/// The mathematical model of a [`Discovery`].
pub struct DiscoveryView {
    pub issuer: Seq<char>,
    pub authorization_endpoint: Seq<char>,
    pub token_endpoint: Seq<char>,
    pub end_session_endpoint: Seq<char>,
    pub jwks_uri: Seq<char>,
}

impl View for Discovery {
    type V = DiscoveryView;

    open spec fn view(&self) -> DiscoveryView {
        DiscoveryView {
            issuer: self.issuer@,
            authorization_endpoint: self.authorization_endpoint@,
            token_endpoint: self.token_endpoint@,
            end_session_endpoint: self.end_session_endpoint@,
            jwks_uri: self.jwks_uri@,
        }
    }
}

/// Where a provider's discovery document is.
pub open spec fn discovery_url_text(issuer: Seq<char>) -> Seq<char> {
    issuer + "/.well-known/openid-configuration"@
}

/// Where the provider's discovery document is.
pub fn discovery_url(cfg: &Config) -> (r: String)
    ensures
        r@ == discovery_url_text(cfg@.issuer),
{
    let mut r = cfg.issuer.clone();
    r.append("/.well-known/openid-configuration");
    r
}

/// A request for the document at `url`.
pub open spec fn get_request(url: Seq<char>) -> OutRequestView {
    OutRequestView { method: Method::Get, uri: url, headers: seq![], body: seq![] }
}

/// A request for the document at `url`.
pub fn get(url: &str) -> (r: OutRequest)
    ensures
        r@ == get_request(url@),
{
    let r = OutRequest {
        method: Method::Get,
        uri: url.to_owned(),
        headers: Vec::new(),
        body: String::new(),
    };
    assert(r@.headers == get_request(url@).headers);
    r
}

/// Is this the status of a success?
pub open spec fn is_success(status: u16) -> bool {
    200 <= status < 300
}

/// The refusal where the document at `url` came with the wrong status.
pub open spec fn status_fault(url: Seq<char>, status: u16) -> AuthErrorView {
    fault(ErrorKind::Fetch, "GET "@ + url + " -> HTTP "@ + decimal(status as nat))
}

/// The document at `url`, given the status of the reply and what its body was read as.
pub open spec fn document(
    url: Seq<char>,
    status: u16,
    parsed: Result<Seq<(Seq<char>, Option<Seq<char>>)>, Seq<char>>,
) -> Result<Seq<(Seq<char>, Option<Seq<char>>)>, AuthErrorView> {
    if !is_success(status) {
        Err(status_fault(url, status))
    } else {
        match parsed {
            Ok(doc) => Ok(doc),
            Err(e) => Err(fault(ErrorKind::Json, "parse JSON from "@ + url + ": "@ + e)),
        }
    }
}

/// What an outcome with a document says.
pub open spec fn document_outcome(r: Result<JsonObject, AuthError>) -> Result<
    Seq<(Seq<char>, Option<Seq<char>>)>,
    AuthErrorView,
> {
    match r {
        Ok(doc) => Ok(doc@),
        Err(e) => Err(e@),
    }
}

/// The document at `url`, given the status of the reply and what its body was read as.
pub fn document_of(url: &str, status: u16, parsed: Result<JsonObject, String>) -> (r: Result<
    JsonObject,
    AuthError,
>)
    ensures
        document_outcome(r) == document(url@, status, members_of(parsed)),
{
    if status < 200 || status >= 300 {
        let mut message = "GET ".to_owned();
        message.append(url);
        message.append(" -> HTTP ");
        message.append(decimal_text(status as u64).as_str());
        return Err(AuthError { kind: ErrorKind::Fetch, message });
    }
    match parsed {
        Ok(doc) => Ok(doc),
        Err(e) => {
            let mut message = "parse JSON from ".to_owned();
            message.append(url);
            message.append(": ");
            message.append(e.as_str());
            Err(AuthError { kind: ErrorKind::Json, message })
        },
    }
}

/// The endpoints that a discovery document names, or the first that it should name and does not.
pub open spec fn discovered(doc: Seq<(Seq<char>, Option<Seq<char>>)>) -> Result<
    DiscoveryView,
    AuthErrorView,
> {
    if member_text(doc, "issuer"@) is None {
        Err(missing_field("issuer"@))
    } else if member_text(doc, "authorization_endpoint"@) is None {
        Err(missing_field("authorization_endpoint"@))
    } else if member_text(doc, "token_endpoint"@) is None {
        Err(missing_field("token_endpoint"@))
    } else if member_text(doc, "jwks_uri"@) is None {
        Err(missing_field("jwks_uri"@))
    } else {
        Ok(
            DiscoveryView {
                issuer: member_text(doc, "issuer"@)->Some_0,
                authorization_endpoint: member_text(doc, "authorization_endpoint"@)->Some_0,
                token_endpoint: member_text(doc, "token_endpoint"@)->Some_0,
                end_session_endpoint: match member_text(doc, "end_session_endpoint"@) {
                    Some(s) => s,
                    None => seq![],
                },
                jwks_uri: member_text(doc, "jwks_uri"@)->Some_0,
            },
        )
    }
}

/// What an outcome with endpoints says.
pub open spec fn discovery_outcome(r: Result<Discovery, AuthError>) -> Result<
    DiscoveryView,
    AuthErrorView,
> {
    match r {
        Ok(d) => Ok(d@),
        Err(e) => Err(e@),
    }
}

/// The endpoints that a discovery document names.
pub fn discovery_of(doc: &JsonObject) -> (r: Result<Discovery, AuthError>)
    ensures
        discovery_outcome(r) == discovered(doc@),
{
    let issuer = str_field(doc, "issuer")?;
    let authorization_endpoint = str_field(doc, "authorization_endpoint")?;
    let token_endpoint = str_field(doc, "token_endpoint")?;
    let jwks_uri = str_field(doc, "jwks_uri")?;
    let end_session_endpoint = match doc.text("end_session_endpoint") {
        Some(s) => s,
        None => String::new(),
    };
    let d = Discovery {
        issuer,
        authorization_endpoint,
        token_endpoint,
        end_session_endpoint,
        jwks_uri,
    };
    Ok(d)
}

/// Why a provider's record is fetched.
#[derive(Clone, Copy, Debug, PartialEq, Eq, Structural)]
pub enum FetchReason {
    /// The store has none that is fresh. What stands there, if anything, was last fetched on account
    /// of an unknown key at this time.
    Stale { last_kid_miss_fetch: u64 },
    /// The one in the store does not have the key that is looked for.
    UnknownKid,
}

/// What a record fetched at `now` has for the time of the last fetch on account of an unknown key:
/// that of the record which it replaces, or its own.
pub open spec fn miss_stamp(why: FetchReason, now: u64) -> u64 {
    match why {
        FetchReason::Stale { last_kid_miss_fetch } => last_kid_miss_fetch,
        FetchReason::UnknownKid => now,
    }
}

/// The record of a provider fetched at `now`.
pub open spec fn fetched(
    disc: DiscoveryView,
    keys: Seq<JwkView>,
    age: Option<u64>,
    why: FetchReason,
    now: u64,
) -> TenantMetaView {
    TenantMetaView {
        issuer: disc.issuer,
        authorization_endpoint: disc.authorization_endpoint,
        token_endpoint: disc.token_endpoint,
        end_session_endpoint: disc.end_session_endpoint,
        jwks_uri: disc.jwks_uri,
        keys,
        fetched_at: now,
        max_age: match age {
            Some(n) => n,
            None => DEFAULT_JWKS_MAX_AGE_SECS,
        },
        last_kid_miss_fetch: miss_stamp(why, now),
    }
}

/// The record of a provider fetched at `now`.
pub fn assemble(
    disc: Discovery,
    keys: Vec<Jwk>,
    age: Option<u64>,
    why: FetchReason,
    now: u64,
) -> (r: TenantMeta)
    ensures
        r@ == fetched(disc@, key_views(keys@), age, why, now),
{
    TenantMeta {
        issuer: disc.issuer,
        authorization_endpoint: disc.authorization_endpoint,
        token_endpoint: disc.token_endpoint,
        end_session_endpoint: disc.end_session_endpoint,
        jwks_uri: disc.jwks_uri,
        keys,
        fetched_at: now,
        max_age: match age {
            Some(n) => n,
            None => DEFAULT_JWKS_MAX_AGE_SECS,
        },
        last_kid_miss_fetch: match why {
            FetchReason::Stale { last_kid_miss_fetch } => last_kid_miss_fetch,
            FetchReason::UnknownKid => now,
        },
    }
}

/// How far the getting of a provider's record has come.
#[derive(Debug)]
pub enum MetaState {
    /// The record in the store was asked for.
    Cache,
    /// The discovery document was asked for.
    Discovery { why: FetchReason },
    /// The key set was asked for.
    Keys { disc: Discovery, why: FetchReason },
    /// The key set is being read.
    Decode { disc: Discovery, age: Option<u64>, why: FetchReason },
    /// The new record is being written.
    Save { meta: TenantMeta },
}

/// The mathematical model of a [`MetaState`].
pub enum MetaStateView {
    Cache,
    Discovery { why: FetchReason },
    Keys { disc: DiscoveryView, why: FetchReason },
    Decode { disc: DiscoveryView, age: Option<u64>, why: FetchReason },
    Save { meta: TenantMetaView },
}

impl View for MetaState {
    type V = MetaStateView;

    open spec fn view(&self) -> MetaStateView {
        match self {
            MetaState::Cache => MetaStateView::Cache,
            MetaState::Discovery { why } => MetaStateView::Discovery { why: *why },
            MetaState::Keys { disc, why } => MetaStateView::Keys { disc: disc@, why: *why },
            MetaState::Decode { disc, age, why } => MetaStateView::Decode {
                disc: disc@,
                age: *age,
                why: *why,
            },
            MetaState::Save { meta } => MetaStateView::Save { meta: meta@ },
        }
    }
}

/// What comes next in the getting of a provider's record.
#[derive(Debug)]
pub enum MetaNext {
    Act(MetaState, Action),
    Ready(TenantMeta),
    Failed(AuthError),
}

/// The mathematical model of a [`MetaNext`].
pub enum MetaNextView {
    Act(MetaStateView, ActionView),
    Ready(TenantMetaView),
    Failed(AuthErrorView),
}

impl View for MetaNext {
    type V = MetaNextView;

    open spec fn view(&self) -> MetaNextView {
        match self {
            MetaNext::Act(st, act) => MetaNextView::Act(st@, act@),
            MetaNext::Ready(meta) => MetaNextView::Ready(meta@),
            MetaNext::Failed(e) => MetaNextView::Failed(e@),
        }
    }
}

/// The first step of getting a provider's record: look into the store.
pub open spec fn meta_start(cfg: ConfigView) -> (MetaStateView, ActionView) {
    (MetaStateView::Cache, ActionView::ReadMeta { key: meta_key_text(cfg.tenant) })
}

/// The first step of fetching a provider's record anew.
pub open spec fn refresh_start(cfg: ConfigView, why: FetchReason) -> (MetaStateView, ActionView) {
    (
        MetaStateView::Discovery { why },
        ActionView::Send(get_request(discovery_url_text(cfg.issuer))),
    )
}

/// The first step of replacing what the store has under the key of a provider's record.
pub open spec fn replace_start(cached: Option<TenantMetaView>, cfg: ConfigView) -> MetaNextView {
    let why = FetchReason::Stale {
        last_kid_miss_fetch: match cached {
            Some(meta) => meta.last_kid_miss_fetch,
            None => 0,
        },
    };
    MetaNextView::Act(refresh_start(cfg, why).0, refresh_start(cfg, why).1)
}

/// The refusal where the document at `url` could not be fetched.
pub open spec fn unreachable_fault(url: Seq<char>, detail: Seq<char>) -> AuthErrorView {
    fault(ErrorKind::Fetch, "GET "@ + url + ": "@ + detail)
}

/// The refusal where the document at `url` could not be fetched.
pub fn unreachable_error(url: &str, detail: &str) -> (r: AuthError)
    ensures
        r@ == unreachable_fault(url@, detail@),
{
    let mut message = "GET ".to_owned();
    message.append(url);
    message.append(": ");
    message.append(detail);
    AuthError { kind: ErrorKind::Fetch, message }
}

/// What comes after a reply with the discovery document.
pub open spec fn after_discovery(
    cfg: ConfigView,
    why: FetchReason,
    status: u16,
    parsed: Result<Seq<(Seq<char>, Option<Seq<char>>)>, Seq<char>>,
) -> MetaNextView {
    match document(discovery_url_text(cfg.issuer), status, parsed) {
        Err(f) => MetaNextView::Failed(f),
        Ok(doc) => match discovered(doc) {
            Err(f) => MetaNextView::Failed(f),
            Ok(disc) => MetaNextView::Act(
                MetaStateView::Keys { disc, why },
                ActionView::Send(get_request(disc.jwks_uri)),
            ),
        },
    }
}

/// What comes after a reply with the key set.
pub open spec fn after_keys(
    disc: DiscoveryView,
    why: FetchReason,
    status: u16,
    cache_control: Option<Seq<char>>,
    body: Seq<u8>,
    parsed: Result<Seq<(Seq<char>, Option<Seq<char>>)>, Seq<char>>,
) -> MetaNextView {
    match document(disc.jwks_uri, status, parsed) {
        Err(f) => MetaNextView::Failed(f),
        Ok(doc) => if member(doc, "keys"@) is None {
            MetaNextView::Failed(fault(ErrorKind::NoKeys, "JWKS missing 'keys'"@))
        } else {
            MetaNextView::Act(
                MetaStateView::Decode {
                    disc,
                    age: match cache_control {
                        Some(h) => max_age(h),
                        None => None,
                    },
                    why,
                },
                ActionView::DecodeKeys { document: body },
            )
        },
    }
}

/// What comes next in the getting of a provider's record, given the outcome of the last action.
pub open spec fn meta_next(
    st: MetaStateView,
    ev: EventView,
    cfg: ConfigView,
    now: u64,
) -> MetaNextView {
    match (st, ev) {
        (MetaStateView::Cache, EventView::Meta(Some(meta))) if is_fresh(meta, now) => {
            MetaNextView::Ready(meta)
        },
        (MetaStateView::Cache, EventView::Meta(cached)) => replace_start(cached, cfg),
        (MetaStateView::Cache, EventView::Failed(e)) => MetaNextView::Failed(store_fault(e)),
        (MetaStateView::Discovery { why }, EventView::Reply { status, cache_control, body }) => {
            after_discovery(cfg, why, status, json_members(body))
        },
        (MetaStateView::Discovery { why }, EventView::Failed(e)) => MetaNextView::Failed(
            unreachable_fault(discovery_url_text(cfg.issuer), e),
        ),
        (MetaStateView::Keys { disc, why }, EventView::Reply { status, cache_control, body }) => {
            after_keys(disc, why, status, cache_control, body, json_members(body))
        },
        (MetaStateView::Keys { disc, why }, EventView::Failed(e)) => MetaNextView::Failed(
            unreachable_fault(disc.jwks_uri, e),
        ),
        (MetaStateView::Decode { disc, age, why }, EventView::Keys(Ok(keys))) => MetaNextView::Act(
            MetaStateView::Save { meta: fetched(disc, keys, age, why, now) },
            ActionView::WriteMeta {
                key: meta_key_text(cfg.tenant),
                record: fetched(disc, keys, age, why, now),
            },
        ),
        (MetaStateView::Decode { disc, age, why }, EventView::Keys(Err(e))) => {
            MetaNextView::Failed(fault(ErrorKind::Json, e))
        },
        (MetaStateView::Save { meta }, EventView::Done) => MetaNextView::Ready(meta),
        (MetaStateView::Save { meta }, EventView::Failed(e)) => MetaNextView::Failed(
            store_fault(e),
        ),
        _ => MetaNextView::Failed(outcome_fault()),
    }
}

/// Begins to get the provider's record: endpoints and keys.
pub fn get_meta(cfg: &Config) -> (r: (MetaState, Action))
    ensures
        (r.0@, r.1@) == meta_start(cfg@),
{
    (MetaState::Cache, Action::ReadMeta { key: meta_key(cfg) })
}

/// Begins to fetch the provider's record anew.
pub fn refresh(cfg: &Config, why: FetchReason) -> (r: (MetaState, Action))
    ensures
        (r.0@, r.1@) == refresh_start(cfg@, why),
{
    (MetaState::Discovery { why }, Action::Send(get(discovery_url(cfg).as_str())))
}

/// What comes after the discovery document, given the status and what the body was read as.
pub fn discovery_reply(
    cfg: &Config,
    why: FetchReason,
    status: u16,
    parsed: Result<JsonObject, String>,
) -> (r: MetaNext)
    ensures
        r@ == after_discovery(cfg@, why, status, members_of(parsed)),
{
    let doc = match document_of(discovery_url(cfg).as_str(), status, parsed) {
        Ok(doc) => doc,
        Err(e) => return MetaNext::Failed(e),
    };
    match discovery_of(&doc) {
        Ok(disc) => {
            let request = get(disc.jwks_uri.as_str());
            MetaNext::Act(MetaState::Keys { disc, why }, Action::Send(request))
        },
        Err(e) => MetaNext::Failed(e),
    }
}

/// What comes after the key set, given the reply and what its body was read as.
pub fn keys_reply(
    disc: Discovery,
    why: FetchReason,
    status: u16,
    cache_control: Option<String>,
    body: Vec<u8>,
    parsed: Result<JsonObject, String>,
) -> (r: MetaNext)
    ensures
        r@ == after_keys(disc@, why, status, text_opt(cache_control), body@, members_of(parsed)),
{
    let doc = match document_of(disc.jwks_uri.as_str(), status, parsed) {
        Ok(doc) => doc,
        Err(e) => return MetaNext::Failed(e),
    };
    if !doc.has("keys") {
        return MetaNext::Failed(AuthError::plain(ErrorKind::NoKeys, "JWKS missing 'keys'"));
    }
    let age = match &cache_control {
        Some(h) => parse_max_age(h.as_str()),
        None => None,
    };
    MetaNext::Act(MetaState::Decode { disc, age, why }, Action::DecodeKeys { document: body })
}

/// What comes next in the getting of the provider's record at `now`, given the outcome of the last
/// action.
pub fn meta_step(st: MetaState, ev: Event, cfg: &Config, now: u64) -> (r: MetaNext)
    ensures
        r@ == meta_next(st@, ev@, cfg@, now),
{
    match (st, ev) {
        (MetaState::Cache, Event::Meta(cached)) => {
            let last_kid_miss_fetch = match cached {
                Some(meta) => {
                    if meta.fresh_at(now) {
                        return MetaNext::Ready(meta);
                    }
                    meta.last_kid_miss_fetch
                },
                None => 0,
            };
            let (next, act) = refresh(cfg, FetchReason::Stale { last_kid_miss_fetch });
            MetaNext::Act(next, act)
        },
        (MetaState::Cache, Event::Failed(e)) => MetaNext::Failed(store_error(e)),
        (MetaState::Discovery { why }, Event::Reply { status, cache_control, body }) => {
            discovery_reply(cfg, why, status, read_json(body.as_slice()))
        },
        (MetaState::Discovery { .. }, Event::Failed(e)) => MetaNext::Failed(
            unreachable_error(discovery_url(cfg).as_str(), e.as_str()),
        ),
        (MetaState::Keys { disc, why }, Event::Reply { status, cache_control, body }) => {
            let parsed = read_json(body.as_slice());
            keys_reply(disc, why, status, cache_control, body, parsed)
        },
        (MetaState::Keys { disc, .. }, Event::Failed(e)) => MetaNext::Failed(
            unreachable_error(disc.jwks_uri.as_str(), e.as_str()),
        ),
        (MetaState::Decode { disc, age, why }, Event::Keys(Ok(keys))) => {
            let meta = assemble(disc, keys, age, why, now);
            let record = meta.clone();
            MetaNext::Act(
                MetaState::Save { meta },
                Action::WriteMeta { key: meta_key(cfg), record },
            )
        },
        (MetaState::Decode { .. }, Event::Keys(Err(message))) => MetaNext::Failed(
            AuthError { kind: ErrorKind::Json, message },
        ),
        (MetaState::Save { meta }, Event::Done) => MetaNext::Ready(meta),
        (MetaState::Save { meta }, Event::Failed(e)) => MetaNext::Failed(store_error(e)),
        _ => MetaNext::Failed(unexpected()),
    }
}

/// How far the getting of a signing key has come.
#[derive(Debug)]
pub enum KeyState {
    /// The provider's record is being got.
    Meta(MetaState),
    /// The record does not have the key and is being fetched anew.
    Refetch(MetaState),
    /// Not even the new record has the key; when that was found is being noted.
    Stamp,
}

/// The mathematical model of a [`KeyState`].
pub enum KeyStateView {
    Meta(MetaStateView),
    Refetch(MetaStateView),
    Stamp,
}

impl View for KeyState {
    type V = KeyStateView;

    open spec fn view(&self) -> KeyStateView {
        match self {
            KeyState::Meta(st) => KeyStateView::Meta(st@),
            KeyState::Refetch(st) => KeyStateView::Refetch(st@),
            KeyState::Stamp => KeyStateView::Stamp,
        }
    }
}

/// What comes next in the getting of a signing key.
#[derive(Debug)]
pub enum KeyNext {
    Act(KeyState, Action),
    Found(Jwk),
    Failed(AuthError),
}

/// The mathematical model of a [`KeyNext`].
pub enum KeyNextView {
    Act(KeyStateView, ActionView),
    Found(JwkView),
    Failed(AuthErrorView),
}

impl View for KeyNext {
    type V = KeyNextView;

    open spec fn view(&self) -> KeyNextView {
        match self {
            KeyNext::Act(st, act) => KeyNextView::Act(st@, act@),
            KeyNext::Found(k) => KeyNextView::Found(k@),
            KeyNext::Failed(e) => KeyNextView::Failed(e@),
        }
    }
}

/// The refusal where a key is unknown and the provider was asked for such a one a moment ago.
pub open spec fn suppressed_fault() -> AuthErrorView {
    fault(
        ErrorKind::KidSuppressed,
        "unknown signing kid (refetch suppressed by negative-cache cooldown)"@,
    )
}

/// The refusal where a key is unknown even to a record that was just fetched.
pub open spec fn no_key_fault() -> AuthErrorView {
    fault(ErrorKind::KidUnknown, "no signing key for kid after refetch"@)
}

/// The record with a note that `now` is when it was fetched on account of an unknown key.
pub open spec fn stamped(meta: TenantMetaView, now: u64) -> TenantMetaView {
    TenantMetaView { last_kid_miss_fetch: now, ..meta }
}

/// The first step of getting a signing key: get the provider's record.
pub open spec fn key_start(cfg: ConfigView) -> (KeyStateView, ActionView) {
    (KeyStateView::Meta(meta_start(cfg).0), meta_start(cfg).1)
}

/// May the provider be asked for an unknown key at `now`: is the last time it was long enough ago?
pub open spec fn cooled_down(meta: TenantMetaView, now: u64) -> bool {
    elapsed(now, meta.last_kid_miss_fetch) >= KID_MISS_REFETCH_COOLDOWN_SECS
}

/// What the provider's record, as the store has it, comes to when the key `kid` is looked for in it
/// at `now`.
pub open spec fn key_from_record(
    meta: TenantMetaView,
    kid: Option<Seq<char>>,
    cfg: ConfigView,
    now: u64,
) -> KeyNextView {
    match key_for(meta.keys, kid) {
        Some(k) => KeyNextView::Found(k),
        None => if !cooled_down(meta, now) {
            KeyNextView::Failed(suppressed_fault())
        } else {
            let (st, act) = refresh_start(cfg, FetchReason::UnknownKid);
            KeyNextView::Act(KeyStateView::Refetch(st), act)
        },
    }
}

/// What a record that was fetched because the store had no fresh one comes to when the key `kid` is
/// looked for in it at `now`. It cannot be newer: where the key is not in it, the provider is not
/// asked a second time.
pub open spec fn key_from_replaced(
    meta: TenantMetaView,
    kid: Option<Seq<char>>,
    cfg: ConfigView,
    now: u64,
) -> KeyNextView {
    if key_for(meta.keys, kid) is None && !cooled_down(meta, now) {
        KeyNextView::Failed(suppressed_fault())
    } else {
        key_from_fresh(meta, kid, cfg, now)
    }
}

/// What a record that was just fetched comes to when the key `kid` is looked for in it at `now`.
pub open spec fn key_from_fresh(
    meta: TenantMetaView,
    kid: Option<Seq<char>>,
    cfg: ConfigView,
    now: u64,
) -> KeyNextView {
    match key_for(meta.keys, kid) {
        Some(k) => KeyNextView::Found(k),
        None => KeyNextView::Act(
            KeyStateView::Stamp,
            ActionView::WriteMeta { key: meta_key_text(cfg.tenant), record: stamped(meta, now) },
        ),
    }
}

/// What comes next in the getting of the signing key `kid`, given the outcome of the last action.
pub open spec fn key_next(
    kid: Option<Seq<char>>,
    st: KeyStateView,
    ev: EventView,
    cfg: ConfigView,
    now: u64,
) -> KeyNextView {
    match st {
        KeyStateView::Meta(m) => match meta_next(m, ev, cfg, now) {
            MetaNextView::Act(next, act) => KeyNextView::Act(KeyStateView::Meta(next), act),
            MetaNextView::Failed(f) => KeyNextView::Failed(f),
            MetaNextView::Ready(meta) => if m is Cache {
                key_from_record(meta, kid, cfg, now)
            } else {
                key_from_replaced(meta, kid, cfg, now)
            },
        },
        KeyStateView::Refetch(m) => match meta_next(m, ev, cfg, now) {
            MetaNextView::Act(next, act) => KeyNextView::Act(KeyStateView::Refetch(next), act),
            MetaNextView::Failed(f) => KeyNextView::Failed(f),
            MetaNextView::Ready(meta) => key_from_fresh(meta, kid, cfg, now),
        },
        KeyStateView::Stamp => match ev {
            EventView::Done => KeyNextView::Failed(no_key_fault()),
            EventView::Failed(e) => KeyNextView::Failed(store_fault(e)),
            _ => KeyNextView::Failed(outcome_fault()),
        },
    }
}

/// Begins to get a signing key.
pub fn signing_key(cfg: &Config) -> (r: (KeyState, Action))
    ensures
        (r.0@, r.1@) == key_start(cfg@),
{
    let (st, act) = get_meta(cfg);
    (KeyState::Meta(st), act)
}

/// A copy of the key `kid` of a record, where it has one.
fn pick(meta: &TenantMeta, kid: &Option<String>) -> (r: Option<Jwk>)
    ensures
        r is Some <==> key_for(meta@.keys, text_opt(*kid)) is Some,
        r matches Some(k) ==> key_for(meta@.keys, text_opt(*kid)) == Some(k@),
{
    let id = match kid {
        Some(s) => Some(s.as_str()),
        None => None,
    };
    match meta.find(id) {
        Some(k) => Some(k.clone()),
        None => None,
    }
}

/// The refusal where a key is unknown and the provider was asked for such a one a moment ago.
fn suppressed() -> (r: AuthError)
    ensures
        r@ == suppressed_fault(),
{
    AuthError::plain(
        ErrorKind::KidSuppressed,
        "unknown signing kid (refetch suppressed by negative-cache cooldown)",
    )
}

/// Notes in a record that was just fetched that a key was not in it.
fn note_miss(meta: TenantMeta, cfg: &Config, now: u64) -> (r: KeyNext)
    ensures
        r@ == KeyNextView::Act(
            KeyStateView::Stamp,
            ActionView::WriteMeta { key: meta_key_text(cfg@.tenant), record: stamped(meta@, now) },
        ),
{
    let mut record = meta;
    record.last_kid_miss_fetch = now;
    KeyNext::Act(KeyState::Stamp, Action::WriteMeta { key: meta_key(cfg), record })
}

/// What comes next in the getting of the signing key `kid` at `now`, given the outcome of the last
/// action.
pub fn key_step(kid: &Option<String>, st: KeyState, ev: Event, cfg: &Config, now: u64) -> (r:
    KeyNext)
    ensures
        r@ == key_next(text_opt(*kid), st@, ev@, cfg@, now),
{
    match st {
        KeyState::Meta(m) => {
            let from_store = matches!(m, MetaState::Cache);
            match meta_step(m, ev, cfg, now) {
                MetaNext::Act(next, act) => KeyNext::Act(KeyState::Meta(next), act),
                MetaNext::Failed(e) => KeyNext::Failed(e),
                MetaNext::Ready(meta) => {
                    if let Some(k) = pick(&meta, kid) {
                        return KeyNext::Found(k);
                    }
                    if now.saturating_sub(meta.last_kid_miss_fetch)
                        < KID_MISS_REFETCH_COOLDOWN_SECS {
                        return KeyNext::Failed(suppressed());
                    }
                    if from_store {
                        let (next, act) = refresh(cfg, FetchReason::UnknownKid);
                        KeyNext::Act(KeyState::Refetch(next), act)
                    } else {
                        note_miss(meta, cfg, now)
                    }
                },
            }
        },
        KeyState::Refetch(m) => match meta_step(m, ev, cfg, now) {
            MetaNext::Act(next, act) => KeyNext::Act(KeyState::Refetch(next), act),
            MetaNext::Failed(e) => KeyNext::Failed(e),
            MetaNext::Ready(meta) => {
                if let Some(k) = pick(&meta, kid) {
                    return KeyNext::Found(k);
                }
                note_miss(meta, cfg, now)
            },
        },
        KeyState::Stamp => match ev {
            Event::Done => KeyNext::Failed(
                AuthError::plain(ErrorKind::KidUnknown, "no signing key for kid after refetch"),
            ),
            Event::Failed(e) => KeyNext::Failed(store_error(e)),
            _ => KeyNext::Failed(unexpected()),
        },
    }
}

} // verus!
