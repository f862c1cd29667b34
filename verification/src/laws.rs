//! What the flow promises as a whole, beyond any one step of it.

use crate::action::{ActionView, EventView};
use crate::config::ConfigView;
use crate::error::{AuthErrorView, ErrorKind};
use crate::flow::{
    authorize_location, authorized, callback_goes, callback_start, dispatched, error_view,
    exchange_request, flow_goes, forward_request, is_local_path, login_goes, login_location,
    login_start, logout_next, logout_start, protected_next, protected_start, return_target,
    spend_next, CallbackStateView, FlowView, LoginStateView, LogoutStateView, ProtectedStateView,
    StepView,
};
use crate::form::form_query;
use crate::http::{
    redirect_view, redirect_with_cookie_view, text_view, value_of, RequestView, ResponseView,
};
use crate::jwks::{
    elapsed, is_fresh, key_for, key_named, meta_key_text, JwkView, TenantMetaView,
    KID_MISS_REFETCH_COOLDOWN_SECS,
};
use crate::jwt::{expected_audience, meant_for, token_payload, ClaimsView, HeaderView};
use crate::landing::{
    email_place, entity, escaped, group_items, groups_place, landing_page, landing_view, sub_place,
    untrusted_view, LandingRequestView, PAGE_EMAIL, PAGE_GROUPS, PAGE_HEAD, PAGE_TAIL,
};
use crate::pkce::{
    begun, challenge, draw_wf, pkce_key_text, record_of, start_of, PkceDraw, PkceRecordView,
    PkceStartView,
};
use crate::provider::{
    fetched, key_next, key_start, meta_next, miss_stamp, refresh_start, replace_start,
    suppressed_fault, DiscoveryView, FetchReason, KeyNextView, KeyStateView, MetaNextView,
    MetaStateView,
};
use crate::session::{
    cleared_cookie, cookie_for, created, created_with, looked_up, new_session, sess_key_text, LookupView,
    SessionView, COOKIE_NAME, SESSION_ID_BYTES,
};
use crate::text::{join, law_split_joined, law_split_plain, split, trim_end, trim_start};
use crate::util::{
    b64url_text, cookie, entropy_gives, entropy_outcome, is_b64url_symbol, law_b64url_alphabet,
    law_cookie_sent_back,
};
use vstd::prelude::*;

verus! {

// ---------------------------------------------------------------------------
// Where the browser is sent
// ---------------------------------------------------------------------------

/// After a login the browser goes to a path on this site, whatever was asked for: one slash at the
/// start and no second one after it, in either direction. A path on this site is kept as it is.
pub proof fn law_return_target_is_local(return_to: Option<Seq<char>>)
    ensures
        is_local_path(return_target(return_to)),
        return_target(return_to).len() > 0,
        return_target(return_to)[0] == '/',
        return_target(return_to).len() > 1 ==> return_target(return_to)[1] != '/' && return_target(
            return_to,
        )[1] != '\\',
        return_to matches Some(v) ==> is_local_path(v) ==> return_target(return_to) == v,
{
    reveal_strlit("/");
    reveal_strlit("//");
    reveal_strlit("/\\");
    let t = return_target(return_to);
    assert("/"@.take(1) == "/"@);
    assert(is_local_path(t));
    assert(t.take(1)[0] == t[0]);
    if t.len() > 1 {
        if t[1] == '/' {
            assert(t.take(2) == "//"@);
        }
        if t[1] == '\\' {
            assert(t.take(2) == "/\\"@);
        }
    }
}

/// Is the way back that a login keeps a path on this site?
pub open spec fn login_target_local(st: LoginStateView) -> bool {
    st matches LoginStateView::Meta { return_to, .. } ==> is_local_path(return_to)
}

/// A login begins with a way back on this site.
pub proof fn law_login_starts_local(return_to: Option<Seq<char>>, cfg: ConfigView)
    ensures
        login_start(return_to, cfg) matches StepView::Act(FlowView::Login(st), _)
            && login_target_local(st),
{
    law_return_target_is_local(return_to);
}

/// The way back stays on this site through every step of a login, and so it is kept in the store.
pub proof fn law_login_stays_local(
    st: LoginStateView,
    ev: EventView,
    cfg: ConfigView,
    now: u64,
    r: StepView,
)
    requires
        login_target_local(st),
        login_goes(st, ev, cfg, now, r),
    ensures
        r matches StepView::Act(FlowView::Login(next), _) ==> login_target_local(next),
        r matches StepView::Act(_, ActionView::WritePkce { record, .. }) ==> is_local_path(
            record.return_to,
        ),
{
}

/// The way back that a pending login had, as far as the return from the provider knows it.
pub open spec fn way_back(st: CallbackStateView) -> Option<Seq<char>> {
    match st {
        CallbackStateView::Take { .. } => None,
        CallbackStateView::Spend { found, .. } => match found {
            Ok(rec) => Some(rec.return_to),
            Err(_) => None,
        },
        CallbackStateView::Meta { rec, .. } => Some(rec.return_to),
        CallbackStateView::Exchange { rec } => Some(rec.return_to),
        CallbackStateView::Header { rec, .. } => Some(rec.return_to),
        CallbackStateView::Key { rec, .. } => Some(rec.return_to),
        CallbackStateView::Claims { rec, .. } => Some(rec.return_to),
        CallbackStateView::Save { return_to, .. } => Some(return_to),
    }
}

/// From the moment that a pending login was found, its way back is what the browser is sent to.
pub proof fn law_callback_keeps_way_back(
    st: CallbackStateView,
    ev: EventView,
    cfg: ConfigView,
    now: u64,
    r: StepView,
    target: Seq<char>,
)
    requires
        callback_goes(st, ev, cfg, now, r),
        way_back(st) == Some(target),
    ensures
        r matches StepView::Act(FlowView::Callback(next), _) ==> way_back(next) == Some(target),
        r matches StepView::Respond(resp) ==> value_of(resp.headers, "location"@) == Some(target),
{
    if let StepView::Respond(resp) = r {
        assert(resp.headers[0] == ("location"@, target));
    }
}

/// A browser that was sent to the login from a path is sent back to it, where the path is one on
/// this site: the path survives the query string.
pub proof fn law_path_survives_login(path: Seq<char>, cookie: Option<Seq<char>>, cfg: ConfigView)
    ensures
        ({
            let pairs = seq![("return_to"@, path)];
            let req = RequestView { path: "/login"@, query: form_query(pairs), cookie };
            dispatched(req, pairs, cfg) == login_start(Some(path), cfg)
        }),
        is_local_path(path) ==> return_target(Some(path)) == path,
{
    let pairs = seq![("return_to"@, path)];
    assert(pairs[0].0 == "return_to"@);
}

// ---------------------------------------------------------------------------
// Protected requests
// ---------------------------------------------------------------------------

/// Is this an action of the hot path: one look at the session, its deletion, or the way to the
/// control plane? Nothing is fetched, no token is looked at and nothing is written.
pub open spec fn hot_path(act: ActionView) -> bool {
    act is ReadSession || act is Delete || act is Forward
}

/// A protected request asks neither the provider nor anybody else before it is forwarded.
pub proof fn law_protected_stays_on_hot_path(
    sid: Option<Seq<char>>,
    path: Seq<char>,
    st: ProtectedStateView,
    ev: EventView,
    cfg: ConfigView,
    now: u64,
)
    ensures
        protected_start(sid, path) matches StepView::Act(_, act) ==> hot_path(act),
        protected_next(st, ev, cfg, now) matches StepView::Act(_, act) ==> hot_path(act),
{
}

/// A request is forwarded if and only if its session was found, has not run out, and has the admin
/// group among its groups; what is forwarded is the identity in that session. Where only the group
/// is missing, the answer is 403.
pub proof fn law_forwarded_iff_authorized(
    sid: Seq<char>,
    path: Seq<char>,
    ev: EventView,
    cfg: ConfigView,
    now: u64,
)
    ensures
        ({
            let r = protected_next(ProtectedStateView::Lookup { sid, path }, ev, cfg, now);
            let live = ev matches EventView::Session(Some(Ok(s))) && now < s.exp;
            let sess = ev->Session_0->Some_0->Ok_0;
            &&& (r matches StepView::Act(_, ActionView::Forward(_))) == (live && authorized(
                sess.groups,
                cfg,
            ))
            &&& r matches StepView::Act(_, ActionView::Forward(req)) ==> req == forward_request(
                cfg,
                sess,
            )
            &&& (r matches StepView::Respond(resp) && resp.status == 403) == (live && !authorized(
                sess.groups,
                cfg,
            ))
        }),
{
}

/// Without a session, or with one that was revoked or has run out, the browser goes to the login.
pub proof fn law_no_session_no_entry(
    sid: Seq<char>,
    path: Seq<char>,
    sess: SessionView,
    cfg: ConfigView,
    now: u64,
)
    requires
        now >= sess.exp,
    ensures
        ({
            let to_login = StepView::Respond(redirect_view(login_location(path)));
            let asked = ProtectedStateView::Lookup { sid, path };
            let expired = StepView::Act(
                FlowView::Protected(ProtectedStateView::Expire { path }),
                ActionView::Delete { key: sess_key_text(sid) },
            );
            &&& protected_start(None, path) == to_login
            &&& protected_next(asked, EventView::Session(None), cfg, now) == to_login
            &&& protected_next(asked, EventView::Session(Some(Ok(sess))), cfg, now) == expired
            &&& protected_next(
                ProtectedStateView::Expire { path },
                EventView::Done,
                cfg,
                now,
            ) == to_login
        }),
{
}

/// The identity token in a session leaves no trace in what a protected request comes to: neither
/// the browser nor the control plane learns it there.
pub proof fn law_identity_token_unseen(
    sid: Seq<char>,
    path: Seq<char>,
    sess: SessionView,
    other: Seq<char>,
    cfg: ConfigView,
    now: u64,
)
    ensures
        ({
            let asked = ProtectedStateView::Lookup { sid, path };
            let changed = SessionView { id_token: other, ..sess };
            protected_next(asked, EventView::Session(Some(Ok(sess))), cfg, now) == protected_next(
                asked,
                EventView::Session(Some(Ok(changed))),
                cfg,
                now,
            )
        }),
{
}

// ---------------------------------------------------------------------------
// Sessions
// ---------------------------------------------------------------------------

/// A session lives from its creation for as long as was configured, and not a second longer.
pub proof fn law_session_lifetime(
    cfg: ConfigView,
    claims: ClaimsView,
    id_token: Seq<char>,
    created_at: u64,
    now: u64,
)
    requires
        created_at + cfg.session_ttl_secs <= u64::MAX,
    ensures
        ({
            let sess = new_session(
                cfg,
                claims.sub,
                claims.email,
                claims.groups,
                id_token,
                created_at,
            );
            looked_up(Some(Ok(sess)), now) == if now < created_at + cfg.session_ttl_secs {
                Ok::<LookupView, AuthErrorView>(LookupView::Live(sess))
            } else {
                Ok(LookupView::Expired)
            }
        }),
{
}

/// The id of a session is the base64url text of entropy that was drawn for it, 43 symbols. The cookie that is set for it begins
/// with the pair that the browser sends back, and from that pair the id is read again.
pub proof fn law_session_id_comes_back(
    id: Seq<char>,
    sess: SessionView,
    cfg: ConfigView,
    sub: Seq<char>,
    email: Seq<char>,
    groups: Seq<Seq<char>>,
    id_token: Seq<char>,
    now: u64,
)
    requires
        created(Ok((id, sess)), cfg, sub, email, groups, id_token, now),
    ensures
        exists|bytes: Seq<u8>|
            entropy_gives(SESSION_ID_BYTES, bytes) && id == #[trigger] b64url_text(bytes),
        id.len() == 43,
        forall|i: int| 0 <= i < id.len() ==> is_b64url_symbol(#[trigger] id[i]),
        cookie_for(id, cfg.session_ttl_secs).take((COOKIE_NAME@.len() + 1 + id.len()) as int)
            == COOKIE_NAME@ + "="@ + id,
        cookie(COOKIE_NAME@ + "="@ + id, COOKIE_NAME@) == Some(id),
{
    let drawn = choose|drawn: Result<Seq<u8>, AuthErrorView>| #[trigger]
        entropy_outcome(SESSION_ID_BYTES, drawn) && Ok::<(Seq<char>, SessionView), AuthErrorView>(
            (id, sess),
        ) == created_with(drawn, cfg, sub, email, groups, id_token, now);
    let bytes = drawn->Ok_0;
    law_b64url_alphabet(bytes);
    reveal_strlit("=");
    reveal_strlit("cp_session");
    assert(COOKIE_NAME@ == "cp_session"@);
    assert(trim_start(COOKIE_NAME@) == COOKIE_NAME@);
    assert(trim_end(COOKIE_NAME@) == COOKIE_NAME@);
    law_cookie_sent_back(bytes, COOKIE_NAME@);
    assert(cookie_for(id, cfg.session_ttl_secs).take((COOKIE_NAME@.len() + 1 + id.len()) as int)
        == COOKIE_NAME@ + "="@ + id);
}

/// The three kinds of record never meet under one key, and within a kind no two of them do.
pub proof fn law_keys_apart(a: Seq<char>, b: Seq<char>)
    ensures
        pkce_key_text(a) != sess_key_text(b),
        pkce_key_text(a) != meta_key_text(b),
        sess_key_text(a) != meta_key_text(b),
        pkce_key_text(a) == pkce_key_text(b) ==> a == b,
        sess_key_text(a) == sess_key_text(b) ==> a == b,
        meta_key_text(a) == meta_key_text(b) ==> a == b,
{
    reveal_strlit("pkce:");
    reveal_strlit("sess:");
    reveal_strlit("jwks:v2:");
    assert(pkce_key_text(a)[0] == 'p');
    assert(sess_key_text(a)[0] == 's');
    assert(sess_key_text(b)[0] == 's');
    assert(meta_key_text(b)[0] == 'j');
    assert(pkce_key_text(a).skip(5) == a);
    assert(pkce_key_text(b).skip(5) == b);
    assert(sess_key_text(a).skip(5) == a);
    assert(sess_key_text(b).skip(5) == b);
    assert(meta_key_text(a).skip(8) == a);
    assert(meta_key_text(b).skip(8) == b);
}

// ---------------------------------------------------------------------------
// Logging in
// ---------------------------------------------------------------------------

/// What a login keeps and what it tells the provider belong together: the nonce is the same, the
/// challenge is that of the verifier. The verifier has the least length allowed, 43 symbols that
/// need no escaping.
pub proof fn law_pkce_pair(
    start: PkceStartView,
    rec: PkceRecordView,
    return_to: Seq<char>,
    now: u64,
)
    requires
        begun(Ok((start, rec)), return_to, now),
    ensures
        start.code_challenge == challenge(rec.verifier),
        start.nonce == rec.nonce,
        rec.return_to == return_to,
        rec.created == now,
        rec.verifier.len() == 43,
        forall|i: int| 0 <= i < rec.verifier.len() ==> is_b64url_symbol(#[trigger] rec.verifier[i]),
        start.state.len() == 32,
        start.nonce.len() == 32,
{
    let draw = choose|draw: PkceDraw| #[trigger]
        draw_wf(draw) && start == start_of(draw) && rec == record_of(draw, return_to, now);
    law_b64url_alphabet(draw.verifier);
}

/// Of the verifier a login tells the provider no more than its challenge: two verifiers with one
/// challenge make one address.
pub proof fn law_verifier_stays_here(
    a: PkceDraw,
    b: PkceDraw,
    endpoint: Seq<char>,
    cfg: ConfigView,
)
    requires
        a.state == b.state,
        a.nonce == b.nonce,
        challenge(b64url_text(a.verifier)) == challenge(b64url_text(b.verifier)),
    ensures
        authorize_location(endpoint, cfg, start_of(a)) == authorize_location(
            endpoint,
            cfg,
            start_of(b),
        ),
{
}

/// A login sends the browser away only once the pending login is written.
pub proof fn law_login_writes_first(
    st: LoginStateView,
    ev: EventView,
    cfg: ConfigView,
    now: u64,
    r: StepView,
)
    requires
        login_goes(st, ev, cfg, now, r),
    ensures
        r is Respond ==> st is Save && ev is Done,
        r matches StepView::Act(FlowView::Login(LoginStateView::Save { .. }), act)
            ==> act is WritePkce,
{
}

// ---------------------------------------------------------------------------
// Coming back
// ---------------------------------------------------------------------------

/// A pending login is used once: where one was found it is deleted before anything else is done,
/// be it readable or not, fresh or stale; and the code is exchanged only after that.
pub proof fn law_pending_login_used_once(
    st: CallbackStateView,
    ev: EventView,
    cfg: ConfigView,
    now: u64,
    r: StepView,
)
    requires
        callback_goes(st, ev, cfg, now, r),
    ensures
        st matches CallbackStateView::Take { state, .. } ==> match ev {
            EventView::Pkce(Some(_)) => r matches StepView::Act(
                FlowView::Callback(CallbackStateView::Spend { .. }),
                act,
            ) && act == (ActionView::Delete { key: pkce_key_text(state) }),
            EventView::Pkce(None) => r matches StepView::Fail(f) && f.kind
                == ErrorKind::UnknownState,
            _ => r is Fail,
        },
        r matches StepView::Act(FlowView::Callback(CallbackStateView::Spend { .. }), _)
            ==> st is Take,
        r matches StepView::Act(FlowView::Callback(CallbackStateView::Meta { .. }), _)
            ==> st is Meta || st is Spend && ev is Done,
        r matches StepView::Act(FlowView::Callback(CallbackStateView::Exchange { .. }), _)
            ==> st is Meta,
{
}

/// Has the token that this state speaks of been verified, with the key that it names?
pub open spec fn token_verified(st: CallbackStateView) -> bool {
    st matches CallbackStateView::Claims { id_token, header, jwk, .. } ==> {
        &&& token_payload(id_token, Ok(header), jwk) is Ok
        &&& header.kid is Some ==> jwk.kid == header.kid
    }
}

proof fn lemma_key_named(keys: Seq<JwkView>, kid: Seq<char>)
    ensures
        key_named(keys, kid) matches Some(k) ==> k.kid == Some(kid) && keys.contains(k),
    decreases keys.len(),
{
    if keys.len() > 0 {
        lemma_key_named(keys.skip(1), kid);
        if let Some(k) = key_named(keys, kid) {
            if keys[0].kid != Some(kid) {
                let i = choose|i: int| 0 <= i < keys.skip(1).len() && keys.skip(1)[i] == k;
                assert(keys[i + 1] == k);
            }
        }
    }
}

/// A key that is found is one of the provider's: the one that the token names, or, where it names
/// none, the only one there is.
pub proof fn law_key_is_the_named_one(keys: Seq<JwkView>, kid: Option<Seq<char>>)
    ensures
        key_for(keys, kid) matches Some(k) ==> {
            &&& keys.contains(k)
            &&& kid is Some ==> k.kid == kid
            &&& kid is None ==> keys.len() == 1
        },
{
    if let Some(id) = kid {
        lemma_key_named(keys, id);
    } else if keys.len() == 1 {
        assert(keys.contains(keys[0]));
    }
}

/// The provider's record, at the moment that the getting of a signing key has it.
pub open spec fn record_at_hand(
    st: KeyStateView,
    ev: EventView,
    cfg: ConfigView,
    now: u64,
) -> Option<TenantMetaView> {
    let next = match st {
        KeyStateView::Meta(m) => meta_next(m, ev, cfg, now),
        KeyStateView::Refetch(m) => meta_next(m, ev, cfg, now),
        KeyStateView::Stamp => MetaNextView::Failed(suppressed_fault()),
    };
    match next {
        MetaNextView::Ready(meta) => Some(meta),
        _ => None,
    }
}

/// The key that a token is verified with comes out of the provider's record, and bears the name
/// that the token gives.
pub proof fn law_key_comes_from_the_record(
    kid: Option<Seq<char>>,
    st: KeyStateView,
    ev: EventView,
    cfg: ConfigView,
    now: u64,
)
    ensures
        key_next(kid, st, ev, cfg, now) matches KeyNextView::Found(k) ==> {
            &&& record_at_hand(st, ev, cfg, now) is Some
            &&& record_at_hand(st, ev, cfg, now)->Some_0.keys.contains(k)
            &&& kid is Some ==> k.kid == kid
        },
{
    if let Some(meta) = record_at_hand(st, ev, cfg, now) {
        law_key_is_the_named_one(meta.keys, kid);
    }
}

/// The claims of a token are read only once its signature holds, and they are read from the very
/// bytes that were signed.
pub proof fn law_signature_before_claims(
    st: CallbackStateView,
    ev: EventView,
    cfg: ConfigView,
    now: u64,
    r: StepView,
)
    requires
        callback_goes(st, ev, cfg, now, r),
    ensures
        r matches StepView::Act(FlowView::Callback(next), _) ==> token_verified(next),
        r matches StepView::Act(
            FlowView::Callback(CallbackStateView::Claims { id_token, header, jwk, .. }),
            act,
        ) ==> act == (ActionView::DecodeClaims {
            json: token_payload(id_token, Ok(header), jwk)->Ok_0,
        }),
{
    if let CallbackStateView::Key { header, key, .. } = st {
        law_key_comes_from_the_record(header.kid, key, ev, cfg, now);
    }
}

/// Was the session `record` earned: does the signature of the token hold, comes it from our
/// provider, is it meant for us, has it not run out, and does it answer this very login?
pub open spec fn session_earned(
    st: CallbackStateView,
    ev: EventView,
    cfg: ConfigView,
    now: u64,
    record: SessionView,
) -> bool {
    match (st, ev) {
        (
            CallbackStateView::Claims { rec, id_token, header, jwk },
            EventView::Claims(Ok(claims)),
        ) => {
            &&& token_payload(id_token, Ok(header), jwk) is Ok
            &&& claims.iss == cfg.issuer
            &&& meant_for(claims.aud, expected_audience(cfg))
            &&& now <= claims.exp + 60
            &&& claims.nonce == Some(rec.nonce)
            &&& record == new_session(
                cfg,
                claims.sub,
                claims.email,
                claims.groups,
                id_token,
                now,
            )
        },
        _ => false,
    }
}

/// Whatever happens on the way, a session is written only for a token that passed every check; and
/// the browser gets a cookie only once its session is written.
pub proof fn law_session_is_earned(
    st: CallbackStateView,
    ev: EventView,
    cfg: ConfigView,
    now: u64,
    r: StepView,
)
    requires
        callback_goes(st, ev, cfg, now, r),
        token_verified(st),
    ensures
        r matches StepView::Act(_, ActionView::WriteSession { record, .. }) ==> session_earned(
            st,
            ev,
            cfg,
            now,
            record,
        ),
        r is Respond ==> st is Save && ev is Done,
        r matches StepView::Act(FlowView::Callback(CallbackStateView::Save { .. }), act)
            ==> act is WriteSession,
{
}

/// No flow but the return from the provider writes a session.
pub proof fn law_only_callback_writes_sessions(
    flow: FlowView,
    ev: EventView,
    cfg: ConfigView,
    now: u64,
    r: StepView,
)
    requires
        flow_goes(flow, ev, cfg, now, r),
    ensures
        r matches StepView::Act(_, ActionView::WriteSession { .. }) ==> flow is Callback,
{
}

/// A signature holds only under one of the two algorithms, each with a key of its own kind: a
/// token cannot choose another.
pub proof fn law_two_algorithms(id_token: Seq<char>, header: HeaderView, jwk: JwkView)
    requires
        token_payload(id_token, Ok(header), jwk) is Ok,
    ensures
        header.alg == "RS256"@ && jwk.kty == "RSA"@ || header.alg == "ES256"@ && jwk.kty == "EC"@,
        split(id_token, '.').len() == 3,
{
}

/// A session that was created opens the way for as long as it lives: the browser sends its cookie,
/// the id leads to the key under which the session was written, and with the session found there
/// the request is forwarded in the name of whoever logged in.
pub proof fn law_session_opens_the_way(
    id: Seq<char>,
    sess: SessionView,
    cfg: ConfigView,
    claims: ClaimsView,
    id_token: Seq<char>,
    created_at: u64,
    req: RequestView,
    pairs: Seq<(Seq<char>, Seq<char>)>,
    now: u64,
)
    requires
        created(
            Ok((id, sess)),
            cfg,
            claims.sub,
            claims.email,
            claims.groups,
            id_token,
            created_at,
        ),
        claims.groups.contains(cfg.admin_group),
        now < created_at + cfg.session_ttl_secs,
        req.cookie == Some(COOKIE_NAME@ + "="@ + id),
        req.path != "/login"@ && req.path != "/callback"@ && req.path != "/logout"@,
    ensures
        ({
            let asked = ProtectedStateView::Lookup { sid: id, path: req.path };
            let forwarded = StepView::Act(
                FlowView::Protected(ProtectedStateView::Forward),
                ActionView::Forward(forward_request(cfg, sess)),
            );
            &&& dispatched(req, pairs, cfg) == StepView::Act(
                FlowView::Protected(asked),
                ActionView::ReadSession { key: sess_key_text(id) },
            )
            &&& protected_next(asked, EventView::Session(Some(Ok(sess))), cfg, now) == forwarded
            &&& sess.sub == claims.sub && sess.email == claims.email && sess.groups == claims.groups
        }),
{
    law_session_id_comes_back(
        id,
        sess,
        cfg,
        claims.sub,
        claims.email,
        claims.groups,
        id_token,
        created_at,
    );
}

/// A pending login waits five minutes under its state. The provider's answer with that state leads
/// to it, and within that time the code is exchanged with the verifier that goes with the challenge
/// which the provider was told; after that time the answer is refused.
pub proof fn law_pending_login_waits(
    start: PkceStartView,
    rec: PkceRecordView,
    return_to: Seq<char>,
    description: Option<Seq<char>>,
    code: Seq<char>,
    meta: TenantMetaView,
    cfg: ConfigView,
    begun_at: u64,
    now: u64,
    r: StepView,
)
    requires
        begun(Ok((start, rec)), return_to, begun_at),
        callback_goes(
            CallbackStateView::Meta { code, rec, meta: MetaStateView::Save { meta } },
            EventView::Done,
            cfg,
            now,
            r,
        ),
    ensures
        callback_start(None, description, Some(code), Some(start.state)) == StepView::Act(
            FlowView::Callback(CallbackStateView::Take { code, state: start.state }),
            ActionView::ReadPkce { key: pkce_key_text(start.state) },
        ),
        spend_next(code, Ok(rec), EventView::Done, cfg, now) is Act <==> elapsed(now, begun_at)
            <= 300,
        spend_next(code, Ok(rec), EventView::Done, cfg, now) matches StepView::Fail(f) ==> f.kind
            == ErrorKind::StateExpired,
        r == StepView::Act(
            FlowView::Callback(CallbackStateView::Exchange { rec }),
            ActionView::Send(exchange_request(cfg, meta.token_endpoint, code, rec.verifier)),
        ),
        challenge(rec.verifier) == start.code_challenge,
{
    law_pkce_pair(start, rec, return_to, begun_at);
}

// ---------------------------------------------------------------------------
// Logging out
// ---------------------------------------------------------------------------

/// The session that a logout has yet to delete.
pub open spec fn to_revoke(st: LogoutStateView) -> Option<Seq<char>> {
    match st {
        LogoutStateView::Lookup { sid } => Some(sid),
        LogoutStateView::Expire { sid } => Some(sid),
        LogoutStateView::Revoke { sid, .. } => Some(sid),
        LogoutStateView::Meta { .. } => None,
    }
}

/// A logout deletes the session of the request before it answers: it begins with the session, and
/// as long as that is not deleted it neither answers nor turns to the provider.
pub proof fn law_logout_revokes_first(
    sid: Seq<char>,
    st: LogoutStateView,
    ev: EventView,
    cfg: ConfigView,
    now: u64,
)
    requires
        to_revoke(st) == Some(sid),
    ensures
        logout_start(Some(sid), cfg) matches StepView::Act(FlowView::Logout(first), _) && to_revoke(
            first,
        ) == Some(sid),
        match logout_next(st, ev, cfg, now) {
            StepView::Respond(_) => false,
            StepView::Fail(_) => true,
            StepView::Act(FlowView::Logout(next), act) => match next {
                LogoutStateView::Lookup { .. } => false,
                LogoutStateView::Meta { .. } => st is Revoke && ev is Done,
                _ => to_revoke(next) == Some(sid) && act == (ActionView::Delete {
                    key: sess_key_text(sid),
                }),
            },
            StepView::Act(_, _) => false,
        },
{
}

/// Every answer to a logout removes the cookie.
pub proof fn law_logout_clears_cookie(
    st: LogoutStateView,
    ev: EventView,
    cfg: ConfigView,
    now: u64,
)
    ensures
        logout_next(st, ev, cfg, now) matches StepView::Respond(resp) ==> value_of(
            resp.headers,
            "set-cookie"@,
        ) == Some(cleared_cookie()),
{
    reveal_with_fuel(value_of, 3);
    reveal_strlit("location");
    reveal_strlit("set-cookie");
    assert("location"@.len() != "set-cookie"@.len());
    if let StepView::Respond(resp) = logout_next(st, ev, cfg, now) {
        assert(resp.headers.skip(1)[0] == ("set-cookie"@, cleared_cookie()));
    }
}

// ---------------------------------------------------------------------------
// Endpoints and keys
// ---------------------------------------------------------------------------

/// The provider is asked for its endpoints and keys only where the store has no fresh record.
pub proof fn law_fresh_record_is_used(meta: TenantMetaView, cfg: ConfigView, now: u64)
    ensures
        meta_next(MetaStateView::Cache, EventView::Meta(Some(meta)), cfg, now) == if is_fresh(
            meta,
            now,
        ) {
            MetaNextView::Ready(meta)
        } else {
            replace_start(Some(meta), cfg)
        },
        meta_next(MetaStateView::Cache, EventView::Meta(None), cfg, now) == replace_start(None, cfg),
{
}

/// A record stays fresh for as long as the provider said, or else for an hour.
pub proof fn law_record_freshness(
    disc: DiscoveryView,
    keys: Seq<JwkView>,
    age: Option<u64>,
    why: FetchReason,
    fetched_at: u64,
    now: u64,
)
    ensures
        is_fresh(fetched(disc, keys, age, why, fetched_at), now) <==> elapsed(now, fetched_at)
            < match age {
            Some(n) => n,
            None => 3600,
        },
{
}

/// A key that the record in the store does not have is looked for at the provider, once, and found
/// where it is there by then: that is how keys are rotated.
pub proof fn law_unknown_key_is_refetched(
    meta: TenantMetaView,
    renewed: TenantMetaView,
    key: JwkView,
    kid: Option<Seq<char>>,
    cfg: ConfigView,
    now: u64,
    later: u64,
)
    requires
        is_fresh(meta, now),
        key_for(meta.keys, kid) is None,
        elapsed(now, meta.last_kid_miss_fetch) >= KID_MISS_REFETCH_COOLDOWN_SECS,
        key_for(renewed.keys, kid) == Some(key),
    ensures
        key_next(
            kid,
            KeyStateView::Meta(MetaStateView::Cache),
            EventView::Meta(Some(meta)),
            cfg,
            now,
        ) == KeyNextView::Act(
            KeyStateView::Refetch(refresh_start(cfg, FetchReason::UnknownKid).0),
            refresh_start(cfg, FetchReason::UnknownKid).1,
        ),
        key_next(
            kid,
            KeyStateView::Refetch(MetaStateView::Save { meta: renewed }),
            EventView::Done,
            cfg,
            later,
        ) == KeyNextView::Found(key),
{
}

/// The provider is asked on account of an unknown key only where the store has a record that is
/// fresh, does not have the key, and was not fetched for such a reason within the cooldown.
pub proof fn law_refetch_only_after_cooldown(
    kid: Option<Seq<char>>,
    st: KeyStateView,
    ev: EventView,
    cfg: ConfigView,
    now: u64,
)
    requires
        st !is Refetch,
    ensures
        key_next(kid, st, ev, cfg, now) matches KeyNextView::Act(KeyStateView::Refetch(_), _) ==> {
            &&& st == KeyStateView::Meta(MetaStateView::Cache)
            &&& ev matches EventView::Meta(Some(meta))
            &&& is_fresh(meta, now)
            &&& key_for(meta.keys, kid) is None
            &&& elapsed(now, meta.last_kid_miss_fetch) >= KID_MISS_REFETCH_COOLDOWN_SECS
        },
{
}

/// Why a record is being fetched, while it is.
pub open spec fn fetch_reason(st: MetaStateView) -> Option<FetchReason> {
    match st {
        MetaStateView::Discovery { why } => Some(why),
        MetaStateView::Keys { why, .. } => Some(why),
        MetaStateView::Decode { why, .. } => Some(why),
        _ => None,
    }
}

/// A record that replaces another hands on the time of the last fetch on account of an unknown key;
/// where there is none to replace, that time is zero. The reason for a fetch holds from its first
/// step to the writing of the record.
pub proof fn law_stamp_is_handed_on(
    cached: Option<TenantMetaView>,
    st: MetaStateView,
    ev: EventView,
    cfg: ConfigView,
    now: u64,
)
    requires
        fetch_reason(st) is Some,
    ensures
        meta_next(MetaStateView::Cache, EventView::Meta(cached), cfg, now) matches MetaNextView::Act(
            next,
            _,
        ) ==> fetch_reason(next) == Some(
            FetchReason::Stale {
                last_kid_miss_fetch: match cached {
                    Some(meta) => meta.last_kid_miss_fetch,
                    None => 0,
                },
            },
        ),
        meta_next(st, ev, cfg, now) matches MetaNextView::Act(next, act) ==> match next {
            MetaStateView::Save { meta } => meta.last_kid_miss_fetch == miss_stamp(
                fetch_reason(st)->Some_0,
                now,
            ) && act == (ActionView::WriteMeta { key: meta_key_text(cfg.tenant), record: meta }),
            _ => fetch_reason(next) == fetch_reason(st) && act !is WriteMeta,
        },
{
}

/// Is a fetch that follows on an unknown key marked as such?
pub open spec fn chase_marked(st: KeyStateView) -> bool {
    st matches KeyStateView::Refetch(m) ==> m is Save || fetch_reason(m) == Some(
        FetchReason::UnknownKid,
    )
}

/// Every record that is fetched on account of an unknown key bears the time at which it was, be the
/// key in it or not.
pub proof fn law_every_refetch_is_stamped(
    kid: Option<Seq<char>>,
    st: KeyStateView,
    ev: EventView,
    cfg: ConfigView,
    now: u64,
)
    requires
        chase_marked(st),
    ensures
        chase_marked(key_start(cfg).0),
        key_next(kid, st, ev, cfg, now) matches KeyNextView::Act(next, act) ==> {
            &&& chase_marked(next)
            &&& st is Refetch ==> (act matches ActionView::WriteMeta { record, .. }
                ==> record.last_kid_miss_fetch == now)
        },
{
}

/// Does this state belong to the getting of a key while the last fetch on account of an unknown key,
/// at `missed_at`, is on record?
pub open spec fn miss_on_record(st: KeyStateView, missed_at: u64) -> bool {
    match st {
        KeyStateView::Meta(MetaStateView::Cache) => true,
        KeyStateView::Meta(MetaStateView::Save { meta }) => meta.last_kid_miss_fetch == missed_at,
        KeyStateView::Meta(m) => fetch_reason(m) == Some(
            FetchReason::Stale { last_kid_miss_fetch: missed_at },
        ),
        _ => false,
    }
}

/// Once the provider was asked on account of an unknown key, it is not asked again for that reason
/// within the cooldown, whatever key is looked for: a record in the store that went stale in the
/// meantime is replaced, once, and the time stays on record; a key that is not in the record at hand
/// is refused.
pub proof fn law_unknown_keys_are_capped(
    kid: Option<Seq<char>>,
    st: KeyStateView,
    ev: EventView,
    cfg: ConfigView,
    missed_at: u64,
    now: u64,
)
    requires
        miss_on_record(st, missed_at),
        st == KeyStateView::Meta(MetaStateView::Cache) ==> (ev matches EventView::Meta(cached)
            ==> cached is Some && cached->Some_0.last_kid_miss_fetch == missed_at),
        elapsed(now, missed_at) < KID_MISS_REFETCH_COOLDOWN_SECS,
    ensures
        key_next(kid, st, ev, cfg, now) matches KeyNextView::Act(next, _) ==> miss_on_record(
            next,
            missed_at,
        ) && key_rank(next) < key_rank(st),
        record_at_hand(st, ev, cfg, now) matches Some(meta) ==> key_next(kid, st, ev, cfg, now)
            == match key_for(meta.keys, kid) {
            Some(k) => KeyNextView::Found(k),
            None => KeyNextView::Failed(suppressed_fault()),
        },
{
}

/// From one key to the next: a fetch for the key `kid` at `missed_at`, whether it finds it or not,
/// leaves a record with which the key `other`, looked for within the cooldown, is refused where the
/// record is still fresh, and makes it be replaced, with the time handed on, where it is not.
pub proof fn law_refetch_caps_the_next(
    disc: DiscoveryView,
    keys: Seq<JwkView>,
    age: Option<u64>,
    kid: Option<Seq<char>>,
    other: Option<Seq<char>>,
    cfg: ConfigView,
    missed_at: u64,
    now: u64,
)
    requires
        key_for(keys, other) is None,
        elapsed(now, missed_at) < KID_MISS_REFETCH_COOLDOWN_SECS,
    ensures
        ({
            let renewed = fetched(disc, keys, age, FetchReason::UnknownKid, missed_at);
            &&& key_next(
                kid,
                KeyStateView::Refetch(
                    MetaStateView::Decode { disc, age, why: FetchReason::UnknownKid },
                ),
                EventView::Keys(Ok(keys)),
                cfg,
                missed_at,
            ) == KeyNextView::Act(
                KeyStateView::Refetch(MetaStateView::Save { meta: renewed }),
                ActionView::WriteMeta { key: meta_key_text(cfg.tenant), record: renewed },
            )
            &&& key_next(
                other,
                KeyStateView::Meta(MetaStateView::Cache),
                EventView::Meta(Some(renewed)),
                cfg,
                now,
            ) == if is_fresh(renewed, now) {
                KeyNextView::Failed(suppressed_fault())
            } else {
                let why = FetchReason::Stale { last_kid_miss_fetch: missed_at };
                KeyNextView::Act(
                    KeyStateView::Meta(refresh_start(cfg, why).0),
                    refresh_start(cfg, why).1,
                )
            }
        }),
{
}

// ---------------------------------------------------------------------------
// The control plane
// ---------------------------------------------------------------------------

proof fn lemma_escaped(s: Seq<char>)
    ensures
        forall|i: int|
            0 <= i < escaped(s).len() ==> {
                let c = #[trigger] escaped(s)[i];
                c != '<' && c != '>' && c != '"'
            },
    decreases s.len(),
{
    if s.len() > 0 {
        lemma_escaped(s.drop_last());
        reveal_strlit("&amp;");
        reveal_strlit("&lt;");
        reveal_strlit("&gt;");
        reveal_strlit("&quot;");
        let init = escaped(s.drop_last());
        let last = entity(s.last());
        assert forall|i: int| 0 <= i < escaped(s).len() implies {
            let c = #[trigger] escaped(s)[i];
            c != '<' && c != '>' && c != '"'
        } by {
            if i < init.len() {
                assert(escaped(s)[i] == init[i]);
            } else {
                assert(escaped(s)[i] == last[i - init.len()]);
            }
        }
    }
}

/// A text that is shown in HTML holds no markup: no tag can begin or end in it, and no attribute.
pub proof fn law_escaped_has_no_markup(s: Seq<char>)
    ensures
        !escaped(s).contains('<'),
        !escaped(s).contains('>'),
        !escaped(s).contains('"'),
{
    lemma_escaped(s);
}

/// Does `part` occur in `s`?
pub open spec fn occurs_in(part: Seq<char>, s: Seq<char>) -> bool {
    exists|before: Seq<char>, after: Seq<char>| s == #[trigger] (before + part + after)
}

/// How often `c` occurs in `s`.
pub open spec fn count_of(s: Seq<char>, c: char) -> nat
    decreases s.len(),
{
    if s.len() == 0 {
        0
    } else {
        count_of(s.drop_last(), c) + if s.last() == c {
            1nat
        } else {
            0
        }
    }
}

/// How many of `parts` are not empty.
pub open spec fn named_parts(parts: Seq<Seq<char>>) -> nat
    decreases parts.len(),
{
    if parts.len() == 0 {
        0
    } else {
        named_parts(parts.drop_last()) + if parts.last().len() > 0 {
            1nat
        } else {
            0
        }
    }
}

proof fn lemma_count_sum(a: Seq<char>, b: Seq<char>, c: char)
    ensures
        count_of(a + b, c) == count_of(a, c) + count_of(b, c),
    decreases b.len(),
{
    if b.len() == 0 {
        assert(a + b == a);
    } else {
        lemma_count_sum(a, b.drop_last(), c);
        assert((a + b).drop_last() == a + b.drop_last());
        assert((a + b).last() == b.last());
    }
}

proof fn lemma_count_none(s: Seq<char>, c: char)
    requires
        !s.contains(c),
    ensures
        count_of(s, c) == 0,
    decreases s.len(),
{
    if s.len() > 0 {
        assert(s[s.len() - 1] != c);
        assert forall|i: int| 0 <= i < s.drop_last().len() implies s.drop_last()[i] != c by {
            assert(s[i] != c);
        }
        lemma_count_none(s.drop_last(), c);
    }
}

proof fn lemma_item_markup(c: char)
    requires
        c == '<' || c == '>',
    ensures
        count_of("<li><code>"@, c) == 2,
        count_of("</code></li>"@, c) == 2,
{
    reveal_strlit("<li><code>");
    reveal_strlit("</code></li>");
    let a = "<li><code>"@;
    let b = "</code></li>"@;
    lemma_count_sum(a.take(4), a.skip(4), c);
    assert(a.take(4) + a.skip(4) == a);
    lemma_bracketed(seq!['l', 'i'], c);
    lemma_bracketed(seq!['c', 'o', 'd', 'e'], c);
    assert(seq!['<'] + seq!['l', 'i'] + seq!['>'] == a.take(4));
    assert(seq!['<'] + seq!['c', 'o', 'd', 'e'] + seq!['>'] == a.skip(4));
    lemma_count_sum(b.take(7), b.skip(7), c);
    assert(b.take(7) + b.skip(7) == b);
    lemma_bracketed(seq!['/', 'c', 'o', 'd', 'e'], c);
    lemma_bracketed(seq!['/', 'l', 'i'], c);
    assert(seq!['<'] + seq!['/', 'c', 'o', 'd', 'e'] + seq!['>'] == b.take(7));
    assert(seq!['<'] + seq!['/', 'l', 'i'] + seq!['>'] == b.skip(7));
}

proof fn lemma_bracketed(name: Seq<char>, c: char)
    requires
        c == '<' || c == '>',
        !name.contains(c),
    ensures
        count_of(seq!['<'] + name + seq!['>'], c) == 1,
{
    lemma_count_sum(seq!['<'] + name, seq!['>'], c);
    lemma_count_sum(seq!['<'], name, c);
    lemma_count_none(name, c);
    assert(seq!['<'].drop_last().len() == 0);
    assert(seq!['>'].drop_last().len() == 0);
    reveal_with_fuel(count_of, 2);
}

proof fn lemma_items_markup(parts: Seq<Seq<char>>, c: char)
    requires
        c == '<' || c == '>',
    ensures
        count_of(group_items(parts), c) == 4 * named_parts(parts),
    decreases parts.len(),
{
    if parts.len() > 0 {
        let init = group_items(parts.drop_last());
        let shown = escaped(parts.last());
        lemma_items_markup(parts.drop_last(), c);
        lemma_item_markup(c);
        law_escaped_has_no_markup(parts.last());
        lemma_count_none(shown, c);
        lemma_count_sum(init + "<li><code>"@ + shown, "</code></li>"@, c);
        lemma_count_sum(init + "<li><code>"@, shown, c);
        lemma_count_sum(init, "<li><code>"@, c);
    }
}

/// How often `c` occurs in the parts of the page that are the same for everybody.
pub open spec fn frame_count(c: char) -> nat {
    count_of(PAGE_HEAD@, c) + count_of("<dd><code>"@, c) + count_of("</code></dd>"@, c) + count_of(
        PAGE_EMAIL@,
        c,
    ) + count_of("<dd>"@, c) + count_of("</dd>"@, c) + count_of(PAGE_GROUPS@, c) + count_of(
        "<ul>"@,
        c,
    ) + count_of("</ul>"@, c) + count_of(PAGE_TAIL@, c)
}

proof fn lemma_page_markup(sub: Seq<char>, email: Seq<char>, groups: Seq<char>, c: char)
    requires
        c == '<' || c == '>',
    ensures
        count_of(landing_page(sub, email, groups), c) == frame_count(c) + 4 * named_parts(
            split(groups, ','),
        ),
{
    let items = group_items(split(groups, ','));
    law_escaped_has_no_markup(sub);
    law_escaped_has_no_markup(email);
    lemma_count_none(escaped(sub), c);
    lemma_count_none(escaped(email), c);
    lemma_items_markup(split(groups, ','), c);
    lemma_count_sum("<dd><code>"@ + escaped(sub), "</code></dd>"@, c);
    lemma_count_sum("<dd><code>"@, escaped(sub), c);
    lemma_count_sum("<dd>"@ + escaped(email), "</dd>"@, c);
    lemma_count_sum("<dd>"@, escaped(email), c);
    lemma_count_sum("<ul>"@ + items, "</ul>"@, c);
    lemma_count_sum("<ul>"@, items, c);
    let a = PAGE_HEAD@ + sub_place(sub);
    let b = a + PAGE_EMAIL@ + email_place(email);
    let d = b + PAGE_GROUPS@ + groups_place(groups);
    lemma_count_sum(PAGE_HEAD@, sub_place(sub), c);
    lemma_count_sum(a, PAGE_EMAIL@, c);
    lemma_count_sum(a + PAGE_EMAIL@, email_place(email), c);
    lemma_count_sum(b, PAGE_GROUPS@, c);
    lemma_count_sum(b + PAGE_GROUPS@, groups_place(groups), c);
    lemma_count_sum(d, PAGE_TAIL@, c);
}

/// An identity adds no markup to the page but the list items of its groups: four tags, and so four
/// of either bracket, for each group that has a name.
pub proof fn law_identity_adds_no_markup(
    sub: Seq<char>,
    email: Seq<char>,
    groups: Seq<char>,
    c: char,
)
    requires
        c == '<' || c == '>',
    ensures
        count_of(landing_page(sub, email, groups), c) == count_of(
            landing_page(seq![], seq![], seq![]),
            c,
        ) + 4 * named_parts(split(groups, ',')),
{
    lemma_page_markup(sub, email, groups, c);
    lemma_page_markup(seq![], seq![], seq![], c);
    law_split_plain(seq![], ',');
    let none = split(Seq::<char>::empty(), ',');
    assert(none.drop_last() == Seq::<Seq<char>>::empty());
    assert(named_parts(none.drop_last()) == 0);
    assert(named_parts(none) == 0);
}

/// The page shows subject, address and groups in their places, escaped: the groups as list items, in
/// order, without those that have no name.
pub proof fn law_identity_in_its_place(sub: Seq<char>, email: Seq<char>, groups: Seq<char>)
    ensures
        occurs_in("<dd><code>"@ + escaped(sub) + "</code></dd>"@, landing_page(sub, email, groups)),
        occurs_in("<dd>"@ + escaped(email) + "</dd>"@, landing_page(sub, email, groups)),
        occurs_in(
            "<ul>"@ + group_items(split(groups, ',')) + "</ul>"@,
            landing_page(sub, email, groups),
        ),
{
    let page = landing_page(sub, email, groups);
    let after_groups = PAGE_TAIL@;
    let after_email = PAGE_GROUPS@ + groups_place(groups) + after_groups;
    let after_sub = PAGE_EMAIL@ + email_place(email) + after_email;
    let before_email = PAGE_HEAD@ + sub_place(sub) + PAGE_EMAIL@;
    let before_groups = before_email + email_place(email) + PAGE_GROUPS@;
    assert(page == PAGE_HEAD@ + sub_place(sub) + after_sub);
    assert(page == before_email + email_place(email) + after_email);
    assert(page == before_groups + groups_place(groups) + after_groups);
}

/// The control plane answers nobody without the secret, and nobody at all where there is none.
pub proof fn law_control_plane_guarded(expected: Seq<char>, req: LandingRequestView)
    ensures
        landing_view(expected, req).status == 200 <==> expected.len() > 0 && req.secret == Some(
            expected,
        ),
        landing_view(expected, req).status == 200 || landing_view(expected, req)
            == untrusted_view(),
{
}

/// What the control plane reads of the headers of a request.
pub open spec fn read_headers(headers: Seq<(Seq<char>, Seq<char>)>) -> LandingRequestView {
    LandingRequestView {
        secret: value_of(headers, "x-cp-forward-secret"@),
        sub: value_of(headers, "x-auth-sub"@),
        email: value_of(headers, "x-auth-email"@),
        groups: value_of(headers, "x-auth-groups"@),
    }
}

/// A request that is forwarded is answered, where both sides have one secret: with the page for
/// the identity in the session.
pub proof fn law_forwarded_request_is_answered(cfg: ConfigView, sess: SessionView)
    requires
        cfg.cp_forward_secret.len() > 0,
    ensures
        ({
            let r = landing_view(
                cfg.cp_forward_secret,
                read_headers(forward_request(cfg, sess).headers),
            );
            r.status == 200 && r.body == landing_page(sess.sub, sess.email, join(sess.groups, ","@))
        }),
{
    let h = forward_request(cfg, sess).headers;
    reveal_with_fuel(value_of, 5);
    reveal_strlit("x-cp-forward-secret");
    reveal_strlit("x-auth-sub");
    reveal_strlit("x-auth-email");
    reveal_strlit("x-auth-groups");
    assert("x-cp-forward-secret"@.len() == 19 && "x-auth-sub"@.len() == 10 && "x-auth-email"@.len()
        == 12 && "x-auth-groups"@.len() == 13);
    assert(h.skip(1)[0] == h[1]);
    assert(h.skip(1).skip(1)[0] == h[2]);
    assert(h.skip(1).skip(1).skip(1)[0] == h[3]);
}

/// The page lists the groups of the session one by one, where none of them has a comma in it.
pub proof fn law_groups_survive_forwarding(groups: Seq<Seq<char>>)
    requires
        forall|i: int| 0 <= i < groups.len() ==> !(#[trigger] groups[i]).contains(','),
    ensures
        group_items(split(join(groups, ","@), ',')) == group_items(groups),
{
    reveal_strlit(",");
    assert(","@ == seq![',']);
    law_split_joined(groups, ',');
    if groups.len() == 0 {
        let one = seq![Seq::<char>::empty()];
        assert(one.drop_last() == Seq::<Seq<char>>::empty());
        assert(group_items(one.drop_last()) == Seq::<char>::empty());
        assert(one.last().len() == 0);
        assert(group_items(one) == Seq::<char>::empty());
    }
}

// ---------------------------------------------------------------------------
// Every flow
// ---------------------------------------------------------------------------

/// How many more actions the getting of a provider's record may take.
pub open spec fn meta_rank(st: MetaStateView) -> nat {
    match st {
        MetaStateView::Cache => 4,
        MetaStateView::Discovery { .. } => 3,
        MetaStateView::Keys { .. } => 2,
        MetaStateView::Decode { .. } => 1,
        MetaStateView::Save { .. } => 0,
    }
}

/// How many more actions the getting of a signing key may take.
pub open spec fn key_rank(st: KeyStateView) -> nat {
    match st {
        KeyStateView::Meta(m) => meta_rank(m) + 5,
        KeyStateView::Refetch(m) => meta_rank(m) + 1,
        KeyStateView::Stamp => 0,
    }
}

/// How many more actions a flow may take.
pub open spec fn flow_rank(flow: FlowView) -> nat {
    match flow {
        FlowView::Login(LoginStateView::Meta { meta, .. }) => meta_rank(meta) + 1,
        FlowView::Login(LoginStateView::Save { .. }) => 0,
        FlowView::Callback(CallbackStateView::Take { .. }) => 20,
        FlowView::Callback(CallbackStateView::Spend { .. }) => 19,
        FlowView::Callback(CallbackStateView::Meta { meta, .. }) => meta_rank(meta) + 14,
        FlowView::Callback(CallbackStateView::Exchange { .. }) => 13,
        FlowView::Callback(CallbackStateView::Header { .. }) => 12,
        FlowView::Callback(CallbackStateView::Key { key, .. }) => key_rank(key) + 2,
        FlowView::Callback(CallbackStateView::Claims { .. }) => 1,
        FlowView::Callback(CallbackStateView::Save { .. }) => 0,
        FlowView::Logout(LogoutStateView::Lookup { .. }) => 7,
        FlowView::Logout(LogoutStateView::Expire { .. }) => 6,
        FlowView::Logout(LogoutStateView::Revoke { .. }) => 5,
        FlowView::Logout(LogoutStateView::Meta { meta, .. }) => meta_rank(meta),
        FlowView::Protected(ProtectedStateView::Lookup { .. }) => 1,
        FlowView::Protected(_) => 0,
    }
}

/// Every flow ends: with each action there are fewer left that it may ask for, and no flow asks for
/// more than twenty-one.
pub proof fn law_every_flow_ends(
    flow: FlowView,
    ev: EventView,
    cfg: ConfigView,
    now: u64,
    r: StepView,
)
    requires
        flow_goes(flow, ev, cfg, now, r),
    ensures
        r matches StepView::Act(next, _) ==> flow_rank(next) < flow_rank(flow),
        flow_rank(flow) <= 20,
{
}

/// Is this a response that no cache keeps?
pub open spec fn uncached(resp: ResponseView) -> bool {
    value_of(resp.headers, "cache-control"@) == Some("no-store"@)
}

proof fn lemma_uncached(location: Seq<char>, cookie: Seq<char>, status: u16, body: Seq<char>)
    ensures
        uncached(redirect_view(location)),
        uncached(redirect_with_cookie_view(location, cookie)),
        uncached(text_view(status, body)),
{
    reveal_with_fuel(value_of, 4);
    reveal_strlit("location");
    reveal_strlit("set-cookie");
    reveal_strlit("content-type");
    reveal_strlit("cache-control");
    assert("location"@.len() == 8 && "set-cookie"@.len() == 10 && "content-type"@.len() == 12
        && "cache-control"@.len() == 13);
    let a = redirect_view(location).headers;
    assert(a.skip(1)[0] == a[1]);
    let b = redirect_with_cookie_view(location, cookie).headers;
    assert(b.skip(1)[0] == b[1]);
    assert(b.skip(1).skip(1)[0] == b[2]);
    let c = text_view(status, body).headers;
    assert(c.skip(1)[0] == c[1]);
}

/// No response of the flow is kept by a cache: not the first thing that is said to a request, not
/// what comes later, not a refusal.
pub proof fn law_nothing_is_cached(
    req: RequestView,
    pairs: Seq<(Seq<char>, Seq<char>)>,
    flow: FlowView,
    ev: EventView,
    cfg: ConfigView,
    now: u64,
    r: StepView,
    e: AuthErrorView,
)
    requires
        flow_goes(flow, ev, cfg, now, r),
    ensures
        dispatched(req, pairs, cfg) matches StepView::Respond(resp) ==> uncached(resp),
        r matches StepView::Respond(resp) ==> uncached(resp),
        uncached(error_view(e)),
{
    assert forall|location: Seq<char>| uncached(#[trigger] redirect_view(location)) by {
        lemma_uncached(location, seq![], 0, seq![]);
    }
    assert forall|location: Seq<char>, cookie: Seq<char>|
        uncached(#[trigger] redirect_with_cookie_view(location, cookie)) by {
        lemma_uncached(location, cookie, 0, seq![]);
    }
    assert forall|status: u16, body: Seq<char>| uncached(#[trigger] text_view(status, body)) by {
        lemma_uncached(seq![], seq![], status, body);
    }
}

} // verus!
