//! What the models of the values are: each holds what the value holds, field by field.

use crate::action::{Action, ActionView, Event, EventView};
use crate::config::Config;
use crate::crypto::complaint_of;
use crate::error::{fault, AuthError, AuthErrorView, ErrorKind};
use crate::flow::{
    CallbackState, CallbackStateView, Flow, FlowView, LoginState, LoginStateView, LogoutState,
    LogoutStateView, ProtectedState, ProtectedStateView, Step, StepView,
};
use crate::http::{pair_texts, OutRequest, Request, Response};
use crate::json::{members_of, JsonObject};
use crate::jwks::{key_views, Jwk, TenantMeta};
use crate::jwt::{
    claims_outcome, header_outcome, unit_outcome, Audience, AudienceView, Claims, Header,
};
use crate::landing::LandingRequest;
use crate::pkce::{begin_outcome, found_view, record_outcome, PkceRecord, PkceStart};
use crate::provider::{
    Discovery, FetchReason, KeyNext, KeyNextView, KeyState, KeyStateView, MetaNext, MetaNextView,
    MetaState, MetaStateView,
};
use crate::session::{create_outcome, found_session, lookup_outcome, Lookup, LookupView, Session};
use crate::text::{str_opt, text_opt, texts};
use crate::util::bytes_outcome;
use vstd::prelude::*;

verus! {

/// The models of texts, and of lists and pairs of them.
pub proof fn law_texts(v: Seq<String>, s: String, slice: &str, pairs: Seq<(String, String)>)
    ensures
        texts(v).len() == v.len(),
        forall|i: int| 0 <= i < v.len() ==> #[trigger] texts(v)[i] == v[i]@,
        text_opt(Some(s)) == Some(s@),
        text_opt(None) is None,
        str_opt(Some(slice)) == Some(slice@),
        str_opt(None) is None,
        pair_texts(pairs).len() == pairs.len(),
        forall|i: int| 0 <= i < pairs.len() ==> #[trigger] pair_texts(pairs)[i] == (
            pairs[i].0@,
            pairs[i].1@,
        ),
{
}

/// The models of requests and responses.
pub proof fn law_messages(req: Request, out: OutRequest, resp: Response, seen: LandingRequest)
    ensures
        req@.path == req.path@ && req@.query == req.query@ && req@.cookie == text_opt(req.cookie),
        out@.method == out.method && out@.uri == out.uri@ && out@.headers == pair_texts(out.headers@)
            && out@.body == out.body@,
        resp@.status == resp.status && resp@.headers == pair_texts(resp.headers@) && resp@.body
            == resp.body@,
        seen@.secret == text_opt(seen.secret) && seen@.sub == text_opt(seen.sub) && seen@.email
            == text_opt(seen.email) && seen@.groups == text_opt(seen.groups),
{
}

/// The models of what is kept between requests.
pub proof fn law_records(s: Session, p: PkceRecord, start: PkceStart, m: TenantMeta, k: Jwk)
    ensures
        s@.sub == s.sub@ && s@.email == s.email@ && s@.groups == texts(s.groups@) && s@.idp_tenant
            == s.idp_tenant@ && s@.exp == s.exp && s@.id_token == s.id_token@,
        p@.verifier == p.verifier@ && p@.nonce == p.nonce@ && p@.return_to == p.return_to@
            && p@.created == p.created,
        start@.state == start.state@ && start@.nonce == start.nonce@ && start@.code_challenge
            == start.code_challenge@,
        m@.issuer == m.issuer@ && m@.authorization_endpoint == m.authorization_endpoint@
            && m@.token_endpoint == m.token_endpoint@ && m@.end_session_endpoint
            == m.end_session_endpoint@ && m@.jwks_uri == m.jwks_uri@ && m@.fetched_at
            == m.fetched_at && m@.max_age == m.max_age && m@.last_kid_miss_fetch
            == m.last_kid_miss_fetch,
        m@.keys.len() == m.keys@.len(),
        forall|i: int| 0 <= i < m.keys@.len() ==> #[trigger] m@.keys[i] == m.keys@[i]@,
        k@.kty == k.kty@ && k@.kid == text_opt(k.kid) && k@.alg == text_opt(k.alg) && k@.n
            == text_opt(k.n) && k@.e == text_opt(k.e) && k@.crv == text_opt(k.crv) && k@.x
            == text_opt(k.x) && k@.y == text_opt(k.y),
{
}

/// The models of what a token says, of the endpoints, and of the configuration.
pub proof fn law_statements(
    h: Header,
    c: Claims,
    one: String,
    many: Vec<String>,
    d: Discovery,
    cfg: Config,
)
    ensures
        h@.alg == h.alg@ && h@.kid == text_opt(h.kid),
        c@.sub == c.sub@ && c@.email == c.email@ && c@.aud == c.aud@ && c@.iss == c.iss@ && c@.exp
            == c.exp && c@.nonce == text_opt(c.nonce) && c@.groups == texts(c.groups@),
        Audience::One(one)@ == AudienceView::One(one@),
        Audience::Many(many)@ == AudienceView::Many(texts(many@)),
        Audience::Nobody@ == AudienceView::Nobody,
        d@.issuer == d.issuer@ && d@.authorization_endpoint == d.authorization_endpoint@
            && d@.token_endpoint == d.token_endpoint@ && d@.end_session_endpoint
            == d.end_session_endpoint@ && d@.jwks_uri == d.jwks_uri@,
        cfg@.tenant == cfg.tenant@ && cfg@.issuer == cfg.issuer@ && cfg@.client_id
            == cfg.client_id@ && cfg@.client_secret == cfg.client_secret@ && cfg@.redirect_uri
            == cfg.redirect_uri@ && cfg@.audience == cfg.audience@ && cfg@.admin_group
            == cfg.admin_group@ && cfg@.scopes == cfg.scopes@ && cfg@.session_ttl_secs
            == cfg.session_ttl_secs && cfg@.cp_forward_secret == cfg.cp_forward_secret@,
{
}

/// The models of outcomes: a value as its own model, a refusal as its own.
pub proof fn law_outcomes(
    kind: ErrorKind,
    message: Seq<char>,
    e: AuthError,
    why: String,
    bytes: Vec<u8>,
    h: Header,
    c: Claims,
    p: PkceRecord,
    start: PkceStart,
    id: String,
    s: Session,
    doc: JsonObject,
)
    ensures
        e@.kind == e.kind && e@.message == e.message@,
        fault(kind, message) == (AuthErrorView { kind, message }),
        bytes_outcome(Ok(bytes)) == Ok::<Seq<u8>, AuthErrorView>(bytes@),
        bytes_outcome(Err(e)) == Err::<Seq<u8>, AuthErrorView>(e@),
        unit_outcome(Ok(())) == Ok::<(), AuthErrorView>(()),
        unit_outcome(Err(e)) == Err::<(), AuthErrorView>(e@),
        header_outcome(Ok(h)) == Ok::<crate::jwt::HeaderView, Seq<char>>(h@),
        header_outcome(Err(why)) == Err::<crate::jwt::HeaderView, Seq<char>>(why@),
        claims_outcome(Ok(c)) == Ok::<crate::jwt::ClaimsView, Seq<char>>(c@),
        claims_outcome(Err(why)) == Err::<crate::jwt::ClaimsView, Seq<char>>(why@),
        record_outcome(Ok(p)) == Ok::<crate::pkce::PkceRecordView, Seq<char>>(p@),
        record_outcome(Err(why)) == Err::<crate::pkce::PkceRecordView, Seq<char>>(why@),
        found_view(None) is None,
        found_view(Some(Ok(p))) == Some(Ok::<crate::pkce::PkceRecordView, Seq<char>>(p@)),
        found_view(Some(Err(why))) == Some(Err::<crate::pkce::PkceRecordView, Seq<char>>(why@)),
        found_session(None) is None,
        found_session(Some(Ok(s))) == Some(Ok::<crate::session::SessionView, Seq<char>>(s@)),
        found_session(Some(Err(why))) == Some(Err::<crate::session::SessionView, Seq<char>>(why@)),
        begin_outcome(Ok((start, p))) == Ok::<
            (crate::pkce::PkceStartView, crate::pkce::PkceRecordView),
            AuthErrorView,
        >((start@, p@)),
        begin_outcome(Err(e)) == Err::<
            (crate::pkce::PkceStartView, crate::pkce::PkceRecordView),
            AuthErrorView,
        >(e@),
        create_outcome(Ok((id, s))) == Ok::<
            (Seq<char>, crate::session::SessionView),
            AuthErrorView,
        >((id@, s@)),
        create_outcome(Err(e)) == Err::<(Seq<char>, crate::session::SessionView), AuthErrorView>(e@),
        lookup_outcome(Ok(Lookup::Live(s))) == Ok::<LookupView, AuthErrorView>(LookupView::Live(s@)),
        lookup_outcome(Ok(Lookup::Absent)) == Ok::<LookupView, AuthErrorView>(LookupView::Absent),
        lookup_outcome(Ok(Lookup::Expired)) == Ok::<LookupView, AuthErrorView>(LookupView::Expired),
        lookup_outcome(Err(e)) == Err::<LookupView, AuthErrorView>(e@),
        members_of(Ok(doc)) == Ok::<Seq<(Seq<char>, Option<Seq<char>>)>, Seq<char>>(doc@),
        members_of(Err(why)) == Err::<Seq<(Seq<char>, Option<Seq<char>>)>, Seq<char>>(why@),
        doc@.len() == doc.members@.len(),
        forall|i: int| 0 <= i < doc.members@.len() ==> #[trigger] doc@[i] == (
            doc.members@[i].0@,
            text_opt(doc.members@[i].1),
        ),
        complaint_of(Ok(())) is None,
        complaint_of(Err(why)) == Some(why@),
{
}

/// The models of actions.
pub proof fn law_actions(
    key: String,
    m: TenantMeta,
    p: PkceRecord,
    s: Session,
    out: OutRequest,
    bytes: Vec<u8>,
)
    ensures
        (Action::ReadMeta { key })@ == (ActionView::ReadMeta { key: key@ }),
        (Action::ReadPkce { key })@ == (ActionView::ReadPkce { key: key@ }),
        (Action::ReadSession { key })@ == (ActionView::ReadSession { key: key@ }),
        (Action::WriteMeta { key, record: m })@ == (ActionView::WriteMeta { key: key@, record: m@ }),
        (Action::WritePkce { key, record: p })@ == (ActionView::WritePkce { key: key@, record: p@ }),
        (Action::WriteSession { key, record: s })@ == (ActionView::WriteSession {
            key: key@,
            record: s@,
        }),
        (Action::Delete { key })@ == (ActionView::Delete { key: key@ }),
        Action::Send(out)@ == ActionView::Send(out@),
        Action::Forward(out)@ == ActionView::Forward(out@),
        (Action::DecodeKeys { document: bytes })@ == (ActionView::DecodeKeys { document: bytes@ }),
        (Action::DecodeHeader { json: bytes })@ == (ActionView::DecodeHeader { json: bytes@ }),
        (Action::DecodeClaims { json: bytes })@ == (ActionView::DecodeClaims { json: bytes@ }),
{
}

/// The models of outcomes of actions.
pub proof fn law_events(
    why: String,
    m: TenantMeta,
    p: Option<Result<PkceRecord, String>>,
    s: Option<Result<Session, String>>,
    status: u16,
    cache_control: Option<String>,
    body: Vec<u8>,
    keys: Vec<Jwk>,
    h: Result<Header, String>,
    c: Result<Claims, String>,
)
    ensures
        Event::Failed(why)@ == EventView::Failed(why@),
        Event::Done@ == EventView::Done,
        Event::Meta(None)@ == EventView::Meta(None),
        Event::Meta(Some(m))@ == EventView::Meta(Some(m@)),
        Event::Pkce(p)@ == EventView::Pkce(found_view(p)),
        Event::Session(s)@ == EventView::Session(found_session(s)),
        (Event::Reply { status, cache_control, body })@ == (EventView::Reply {
            status,
            cache_control: text_opt(cache_control),
            body: body@,
        }),
        Event::Keys(Ok(keys))@ == EventView::Keys(Ok(key_views(keys@))),
        Event::Keys(Err(why))@ == EventView::Keys(Err(why@)),
        Event::Header(h)@ == EventView::Header(header_outcome(h)),
        Event::Claims(c)@ == EventView::Claims(claims_outcome(c)),
{
}

/// The models of the states in which a record or a key is being got, and of what comes next.
pub proof fn law_getting_states(
    d: Discovery,
    age: Option<u64>,
    why: FetchReason,
    m: TenantMeta,
    st: MetaState,
    ks: KeyState,
    act: Action,
    k: Jwk,
    e: AuthError,
)
    ensures
        MetaState::Cache@ == MetaStateView::Cache,
        (MetaState::Discovery { why })@ == (MetaStateView::Discovery { why }),
        (MetaState::Keys { disc: d, why })@ == (MetaStateView::Keys { disc: d@, why }),
        (MetaState::Decode { disc: d, age, why })@ == (MetaStateView::Decode { disc: d@, age, why }),
        (MetaState::Save { meta: m })@ == (MetaStateView::Save { meta: m@ }),
        MetaNext::Act(st, act)@ == MetaNextView::Act(st@, act@),
        MetaNext::Ready(m)@ == MetaNextView::Ready(m@),
        MetaNext::Failed(e)@ == MetaNextView::Failed(e@),
        KeyState::Meta(st)@ == KeyStateView::Meta(st@),
        KeyState::Refetch(st)@ == KeyStateView::Refetch(st@),
        KeyState::Stamp@ == KeyStateView::Stamp,
        KeyNext::Act(ks, act)@ == KeyNextView::Act(ks@, act@),
        KeyNext::Found(k)@ == KeyNextView::Found(k@),
        KeyNext::Failed(e)@ == KeyNextView::Failed(e@),
{
}

/// The models of the states of a flow, and of what comes next.
pub proof fn law_flow_states(
    meta: MetaState,
    text: String,
    other: String,
    found: Result<PkceRecord, String>,
    rec: PkceRecord,
    header: Header,
    key: KeyState,
    jwk: Jwk,
    hint: Option<String>,
    flow: Flow,
    act: Action,
    resp: Response,
    e: AuthError,
)
    ensures
        Flow::Login(LoginState::Meta { meta, return_to: text })@ == FlowView::Login(
            LoginStateView::Meta { meta: meta@, return_to: text@ },
        ),
        Flow::Login(LoginState::Save { location: text })@ == FlowView::Login(
            LoginStateView::Save { location: text@ },
        ),
        Flow::Callback(CallbackState::Take { code: text, state: other })@ == FlowView::Callback(
            CallbackStateView::Take { code: text@, state: other@ },
        ),
        Flow::Callback(CallbackState::Spend { code: text, found })@ == FlowView::Callback(
            CallbackStateView::Spend { code: text@, found: record_outcome(found) },
        ),
        Flow::Callback(CallbackState::Meta { code: text, rec, meta })@ == FlowView::Callback(
            CallbackStateView::Meta { code: text@, rec: rec@, meta: meta@ },
        ),
        Flow::Callback(CallbackState::Exchange { rec })@ == FlowView::Callback(
            CallbackStateView::Exchange { rec: rec@ },
        ),
        Flow::Callback(CallbackState::Header { rec, id_token: text })@ == FlowView::Callback(
            CallbackStateView::Header { rec: rec@, id_token: text@ },
        ),
        Flow::Callback(CallbackState::Key { rec, id_token: text, header, key })@
            == FlowView::Callback(
            CallbackStateView::Key { rec: rec@, id_token: text@, header: header@, key: key@ },
        ),
        Flow::Callback(CallbackState::Claims { rec, id_token: text, header, jwk })@
            == FlowView::Callback(
            CallbackStateView::Claims { rec: rec@, id_token: text@, header: header@, jwk: jwk@ },
        ),
        Flow::Callback(CallbackState::Save { sid: text, return_to: other })@ == FlowView::Callback(
            CallbackStateView::Save { sid: text@, return_to: other@ },
        ),
        Flow::Logout(LogoutState::Lookup { sid: text })@ == FlowView::Logout(
            LogoutStateView::Lookup { sid: text@ },
        ),
        Flow::Logout(LogoutState::Expire { sid: text })@ == FlowView::Logout(
            LogoutStateView::Expire { sid: text@ },
        ),
        Flow::Logout(LogoutState::Revoke { sid: text, hint })@ == FlowView::Logout(
            LogoutStateView::Revoke { sid: text@, hint: text_opt(hint) },
        ),
        Flow::Logout(LogoutState::Meta { hint, meta })@ == FlowView::Logout(
            LogoutStateView::Meta { hint: text_opt(hint), meta: meta@ },
        ),
        Flow::Protected(ProtectedState::Lookup { sid: text, path: other })@ == FlowView::Protected(
            ProtectedStateView::Lookup { sid: text@, path: other@ },
        ),
        Flow::Protected(ProtectedState::Expire { path: text })@ == FlowView::Protected(
            ProtectedStateView::Expire { path: text@ },
        ),
        Flow::Protected(ProtectedState::Forward)@ == FlowView::Protected(
            ProtectedStateView::Forward,
        ),
        Step::Act(flow, act)@ == StepView::Act(flow@, act@),
        Step::Respond(resp)@ == StepView::Respond(resp@),
        Step::Fail(e)@ == StepView::Fail(e@),
{
}

} // verus!
