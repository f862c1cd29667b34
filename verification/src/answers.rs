//! What each operation answers to which inputs, spelled out over the inputs themselves: who is let
//! in and who is not, where the browser is sent, what is asked of the provider and of the store.

use crate::action::{ActionView, EventView};
use crate::config::{configured, first_unread, ConfigView, Variables};
use crate::crypto::{
    ec_key_complaint, es256_complaint, es256_form_complaint, rs256_complaint, rsa_key_complaint,
    sha256,
};
use crate::error::{AuthError, AuthErrorView, ErrorKind};
use crate::flow::{
    callback_goes, dispatched, error_view, flow_goes, login_goes, logout_next, protected_next,
    return_target, sanitized, CallbackStateView, FlowView, LoginStateView, LogoutStateView,
    ProtectedStateView, StepView,
};
use crate::form::form_query;
use crate::http::{
    redirect_view, redirect_with_cookie_view, text_view, value_of, Method, OutRequestView,
    RequestView, ResponseView,
};
use crate::json::{json_members, member, member_text};
use crate::jwks::{key_for, max_age, JwkView, TenantMetaView};
use crate::jwt::{
    accepted_unless, claims_fault, named_kid, token_fault, token_payload, AudienceView, Claims,
    ClaimsView, HeaderView,
};
use crate::landing::{
    escaped, group_items, landing_page, landing_view, LandingRequestView, PAGE_EMAIL, PAGE_GROUPS,
    PAGE_HEAD, PAGE_TAIL,
};
use crate::pkce::{
    begun, draw_wf, pending_fault, record_of, start_of, PkceDraw, PkceRecordView, PkceStartView,
};
use crate::provider::{
    key_next, meta_next, DiscoveryView, FetchReason, KeyNextView, KeyStateView, MetaNextView,
    MetaStateView,
};
use crate::session::{created_with, looked_up, new_session, LookupView, SessionView};
use crate::terms::{law_named_key_is_found, law_suffix};
use crate::text::{
    decimal, has_suffix, join, law_split_glued, law_split_plain, lossy, number, shown_list, split,
    trim_end_of,
};
use crate::util::{
    b64url_decoded, b64url_text, cookie, entropy_gives, entropy_outcome, entropy_refuses,
    is_b64url_symbol, law_b64url_alphabet, law_b64url_read_back,
};
use vstd::prelude::*;
use vstd::utf8::encode_utf8;

verus! {

// ---------------------------------------------------------------------------
// Identity tokens
// ---------------------------------------------------------------------------

/// Is a token meant for us: for the configured audience, or for the client where none is configured?
pub open spec fn names_us(aud: AudienceView, cfg: ConfigView) -> bool {
    let us = if cfg.audience.len() > 0 {
        cfg.audience
    } else {
        cfg.client_id
    };
    match aud {
        AudienceView::One(a) => a == us,
        AudienceView::Many(all) => exists|i: int| 0 <= i < all.len() && #[trigger] all[i] == us,
        AudienceView::Nobody => false,
    }
}

/// Claims are accepted if and only if issuer, audience, expiry and nonce are right. Nothing else in
/// them matters: not who it is, nor which groups they are in.
pub proof fn law_four_checks(claims: ClaimsView, cfg: ConfigView, nonce: Seq<char>, now: u64)
    ensures
        claims_fault(claims, cfg, nonce, now) is None <==> {
            &&& claims.iss == cfg.issuer
            &&& names_us(claims.aud, cfg)
            &&& now <= claims.exp + 60
            &&& claims.nonce == Some(nonce)
        },
{
}

/// Claims that are refused are refused for the first of the four that is wrong.
pub proof fn law_first_wrong_check(claims: ClaimsView, cfg: ConfigView, nonce: Seq<char>, now: u64)
    ensures
        claims_fault(claims, cfg, nonce, now) matches Some(f) ==> f.kind == if claims.iss
            != cfg.issuer {
            ErrorKind::Issuer
        } else if !names_us(claims.aud, cfg) {
            ErrorKind::Audience
        } else if now > claims.exp + 60 {
            ErrorKind::Expired
        } else {
            ErrorKind::Nonce
        },
{
}

/// Two tokens that differ in subject, address and groups alone are judged alike.
pub proof fn law_identity_is_not_judged(
    claims: ClaimsView,
    sub: Seq<char>,
    email: Seq<char>,
    groups: Seq<Seq<char>>,
    cfg: ConfigView,
    nonce: Seq<char>,
    now: u64,
)
    ensures
        claims_fault(claims, cfg, nonce, now) == claims_fault(
            ClaimsView { sub, email, groups, ..claims },
            cfg,
            nonce,
            now,
        ),
{
}

/// Claims without a fault are handed on as they are; others are refused with the fault.
pub proof fn law_claims_handed_on(
    f: AuthErrorView,
    claims: Claims,
    r: Result<Claims, AuthError>,
)
    ensures
        accepted_unless(None, claims, r) <==> r == Ok::<Claims, AuthError>(claims),
        accepted_unless(Some(f), claims, r) <==> (r matches Err(e) && e@ == f),
{
}

/// Is this the refusal where `n` bytes of entropy were asked for and could not be had?
pub open spec fn refused_entropy(n: usize, f: AuthErrorView) -> bool {
    exists|detail: Seq<char>| #[trigger]
        entropy_refuses(n, detail) && f == (AuthErrorView {
            kind: ErrorKind::Entropy,
            message: "getrandom: "@ + detail,
        })
}

/// Whoever comes back with a token whose signature holds and whose four checks are passed gets a
/// session, whatever groups they are in: it is written with just what the token says, and ends when
/// its time is up. Only want of entropy, or an end past the range of the clock, is in the way.
pub proof fn law_valid_claims_get_a_session(
    rec: PkceRecordView,
    id_token: Seq<char>,
    header: HeaderView,
    jwk: JwkView,
    claims: ClaimsView,
    cfg: ConfigView,
    now: u64,
    r: StepView,
)
    requires
        callback_goes(
            CallbackStateView::Claims { rec, id_token, header, jwk },
            EventView::Claims(Ok(claims)),
            cfg,
            now,
            r,
        ),
        claims.iss == cfg.issuer,
        names_us(claims.aud, cfg),
        now <= claims.exp + 60,
        claims.nonce == Some(rec.nonce),
    ensures
        match r {
            StepView::Act(
                FlowView::Callback(CallbackStateView::Save { sid, return_to }),
                ActionView::WriteSession { key, record },
            ) => {
                &&& return_to == rec.return_to
                &&& key == "sess:"@ + sid
                &&& exists|bytes: Seq<u8>|
                    entropy_gives(32, bytes) && sid == #[trigger] b64url_text(bytes)
                &&& record.sub == claims.sub
                &&& record.email == claims.email
                &&& record.groups == claims.groups
                &&& record.idp_tenant == cfg.tenant
                &&& record.exp == now + cfg.session_ttl_secs
                &&& record.id_token == id_token
            },
            StepView::Fail(f) => {
                ||| refused_entropy(32, f)
                ||| f.kind == ErrorKind::TimeRange && now + cfg.session_ttl_secs > u64::MAX
            },
            _ => false,
        },
{
    law_four_checks(claims, cfg, rec.nonce, now);
    let b = choose|b: Result<(Seq<char>, SessionView), AuthErrorView>| #[trigger]
        crate::session::created(b, cfg, claims.sub, claims.email, claims.groups, id_token, now) && r
            == crate::flow::session_ready(rec.return_to, b);
    let drawn = choose|drawn: Result<Seq<u8>, AuthErrorView>| #[trigger]
        entropy_outcome(32, drawn) && b == created_with(
            drawn,
            cfg,
            claims.sub,
            claims.email,
            claims.groups,
            id_token,
            now,
        );
    if let Ok(bytes) = drawn {
        assert(entropy_gives(32, bytes));
        assert(b64url_text(bytes) == b64url_text(bytes));
    }
}

proof fn lemma_no_dot(bytes: Seq<u8>)
    ensures
        !b64url_text(bytes).contains('.'),
{
    law_b64url_alphabet(bytes);
    assert forall|i: int| 0 <= i < b64url_text(bytes).len() implies b64url_text(bytes)[i] != '.' by {
        assert(is_b64url_symbol(b64url_text(bytes)[i]));
    }
}

/// A token in its three parts.
pub open spec fn token_of(head: Seq<u8>, payload: Seq<u8>, sig: Seq<u8>) -> Seq<char> {
    b64url_text(head) + seq!['.'] + b64url_text(payload) + seq!['.'] + b64url_text(sig)
}

/// What a token's signature is over: its first two parts, with the dot between them.
pub open spec fn signed_part(head: Seq<u8>, payload: Seq<u8>) -> Seq<char> {
    b64url_text(head) + seq!['.'] + b64url_text(payload)
}

proof fn lemma_token_parts(head: Seq<u8>, payload: Seq<u8>, sig: Seq<u8>)
    ensures
        split(token_of(head, payload, sig), '.') == seq![
            b64url_text(head),
            b64url_text(payload),
            b64url_text(sig),
        ],
        b64url_text(head) + "."@ + b64url_text(payload) == signed_part(head, payload),
{
    let (h, p, s) = (b64url_text(head), b64url_text(payload), b64url_text(sig));
    lemma_no_dot(head);
    lemma_no_dot(payload);
    lemma_no_dot(sig);
    law_split_plain(h, '.');
    law_split_plain(p, '.');
    law_split_plain(s, '.');
    law_split_glued(p, s, '.');
    law_split_glued(h, p.push('.') + s, '.');
    assert(h.push('.') + (p.push('.') + s) == token_of(head, payload, sig));
    assert(seq![h] + (seq![p] + seq![s]) == seq![h, p, s]);
    reveal_strlit(".");
    assert("."@ == seq!['.']);
}

/// A token under RS256 is judged by the key and the signature alone: with an RSA key that has both
/// components it is accepted, and its payload handed on, if and only if they are a key and the
/// signature over its first two parts holds.
pub proof fn law_rs256_token(
    head: Seq<u8>,
    payload: Seq<u8>,
    sig: Seq<u8>,
    n: Seq<u8>,
    e: Seq<u8>,
    header: HeaderView,
    jwk: JwkView,
)
    requires
        header.alg == "RS256"@,
        jwk.kty == "RSA"@,
        jwk.n == Some(b64url_text(n)),
        jwk.e == Some(b64url_text(e)),
    ensures
        ({
            let digest = sha256(encode_utf8(signed_part(head, payload)));
            token_payload(token_of(head, payload, sig), Ok(header), jwk) == match (
                rsa_key_complaint(n, e),
                rs256_complaint(n, e, digest, sig),
            ) {
                (Some(d), _) => Err::<Seq<u8>, AuthErrorView>(
                    AuthErrorView { kind: ErrorKind::BadKey, message: "bad RSA key: "@ + d },
                ),
                (None, Some(d)) => Err(
                    AuthErrorView {
                        kind: ErrorKind::SignatureInvalid,
                        message: "RS256 signature invalid: "@ + d,
                    },
                ),
                (None, None) => Ok(payload),
            }
        }),
{
    lemma_token_parts(head, payload, sig);
    law_b64url_read_back(head);
    law_b64url_read_back(payload);
    law_b64url_read_back(sig);
    law_b64url_read_back(n);
    law_b64url_read_back(e);
}

/// A token under ES256 is judged by the key and the signature alone: with an EC key that has both
/// coordinates, of 32 bytes each, it is accepted, and its payload handed on, if and only if they are
/// a point, the signature has its form, and it holds over the first two parts.
pub proof fn law_es256_token(
    head: Seq<u8>,
    payload: Seq<u8>,
    sig: Seq<u8>,
    x: Seq<u8>,
    y: Seq<u8>,
    header: HeaderView,
    jwk: JwkView,
)
    requires
        header.alg == "ES256"@,
        jwk.kty == "EC"@,
        jwk.x == Some(b64url_text(x)),
        jwk.y == Some(b64url_text(y)),
        x.len() == 32,
        y.len() == 32,
    ensures
        ({
            let message = encode_utf8(signed_part(head, payload));
            let point = seq![4u8] + x + y;
            token_payload(token_of(head, payload, sig), Ok(header), jwk) == match (
                ec_key_complaint(point),
                es256_form_complaint(sig),
                es256_complaint(point, message, sig),
            ) {
                (Some(d), _, _) => Err::<Seq<u8>, AuthErrorView>(
                    AuthErrorView { kind: ErrorKind::BadKey, message: "bad EC key: "@ + d },
                ),
                (None, Some(d), _) => Err(
                    AuthErrorView { kind: ErrorKind::BadSignature, message: "bad ES256 sig: "@ + d },
                ),
                (None, None, Some(d)) => Err(
                    AuthErrorView {
                        kind: ErrorKind::SignatureInvalid,
                        message: "ES256 signature invalid: "@ + d,
                    },
                ),
                (None, None, None) => Ok(payload),
            }
        }),
{
    reveal_strlit("RS256");
    reveal_strlit("ES256");
    assert("RS256"@[0] != "ES256"@[0]);
    lemma_token_parts(head, payload, sig);
    law_b64url_read_back(head);
    law_b64url_read_back(payload);
    law_b64url_read_back(sig);
    law_b64url_read_back(x);
    law_b64url_read_back(y);
}

/// Do modulus and exponent of a key, decoded, make a key under which the signature holds?
pub open spec fn rsa_holds(jwk: JwkView, input: Seq<char>, sig: Seq<u8>) -> bool {
    jwk.kty == "RSA"@ && exists|n: Seq<u8>, e: Seq<u8>|
        jwk.n == Some(#[trigger] b64url_text(n)) && jwk.e == Some(#[trigger] b64url_text(e))
            && rsa_key_complaint(n, e) is None && rs256_complaint(
            n,
            e,
            sha256(encode_utf8(input)),
            sig,
        ) is None
}

/// Do the coordinates of a key, decoded, make a point under which the signature holds?
pub open spec fn ec_holds(jwk: JwkView, input: Seq<char>, sig: Seq<u8>) -> bool {
    jwk.kty == "EC"@ && es256_form_complaint(sig) is None && exists|x: Seq<u8>, y: Seq<u8>|
        jwk.x == Some(#[trigger] b64url_text(x)) && jwk.y == Some(#[trigger] b64url_text(y))
            && x.len() == 32 && y.len() == 32 && ec_key_complaint(seq![4u8] + x + y) is None
            && es256_complaint(seq![4u8] + x + y, encode_utf8(input), sig) is None
}

/// A token is accepted only if it is three parts in base64url, and the last is a signature that holds
/// over the first two, under the algorithm that its header names and with a key of that kind. What
/// is handed on is the second part.
pub proof fn law_accepted_token_is_signed(
    id_token: Seq<char>,
    header: HeaderView,
    jwk: JwkView,
    payload: Seq<u8>,
)
    requires
        token_payload(id_token, Ok(header), jwk) == Ok::<Seq<u8>, AuthErrorView>(payload),
    ensures
        exists|head: Seq<u8>, sig: Seq<u8>| #[trigger]
            token_of(head, payload, sig) == id_token && {
                ||| header.alg == "RS256"@ && rsa_holds(jwk, signed_part(head, payload), sig)
                ||| header.alg == "ES256"@ && ec_holds(jwk, signed_part(head, payload), sig)
            },
{
    let parts = split(id_token, '.');
    let head = b64url_decoded(parts[0])->Ok_0;
    let sig = b64url_decoded(parts[2])->Ok_0;
    crate::terms::law_decoded(parts[0]);
    crate::terms::law_decoded(parts[1]);
    crate::terms::law_decoded(parts[2]);
    crate::terms::law_split_into_pieces(id_token, '.');
    assert(parts == seq![parts[0], parts[1], parts[2]]);
    let dot = seq!['.'];
    crate::terms::law_join(seq![parts[0], parts[1]], parts[2], dot);
    crate::terms::law_join(seq![parts[0]], parts[1], dot);
    assert(seq![parts[0]].push(parts[1]) == seq![parts[0], parts[1]]);
    assert(seq![parts[0], parts[1]].push(parts[2]) == parts);
    assert(join(seq![parts[0]], dot) == parts[0]);
    assert(token_of(head, payload, sig) == id_token);
    reveal_strlit(".");
    assert("."@ == dot);
    let input = signed_part(head, payload);
    assert(parts[0] + "."@ + parts[1] == input);
    if header.alg == "RS256"@ {
        let n = b64url_decoded(jwk.n->Some_0)->Ok_0;
        let e = b64url_decoded(jwk.e->Some_0)->Ok_0;
        crate::terms::law_decoded(jwk.n->Some_0);
        crate::terms::law_decoded(jwk.e->Some_0);
        assert(jwk.n == Some(b64url_text(n)) && jwk.e == Some(b64url_text(e)));
        assert(rsa_holds(jwk, input, sig));
    } else {
        let x = b64url_decoded(jwk.x->Some_0)->Ok_0;
        let y = b64url_decoded(jwk.y->Some_0)->Ok_0;
        crate::terms::law_decoded(jwk.x->Some_0);
        crate::terms::law_decoded(jwk.y->Some_0);
        assert(jwk.x == Some(b64url_text(x)) && jwk.y == Some(b64url_text(y)));
        assert(crate::jwt::sec1_point(x, y) == seq![4u8] + x + y);
        assert(ec_holds(jwk, input, sig));
    }
}

/// A token that is not in three parts is refused for that; and whatever is wrong with form or
/// signature is reported before anything is said of the claims.
pub proof fn law_signature_is_judged_first(
    id_token: Seq<char>,
    header: Result<HeaderView, Seq<char>>,
    claims: Result<ClaimsView, Seq<char>>,
    jwk: JwkView,
    cfg: ConfigView,
    nonce: Seq<char>,
    now: u64,
)
    ensures
        split(id_token, '.').len() != 3 ==> (token_payload(id_token, header, jwk) matches Err(f)
            && f.kind == ErrorKind::Malformed),
        token_fault(id_token, header, claims, jwk, cfg, nonce, now) == match (
            token_payload(id_token, header, jwk),
            claims,
        ) {
            (Err(f), _) => Some(f),
            (Ok(_), Err(e)) => Some(AuthErrorView { kind: ErrorKind::Json, message: e }),
            (Ok(_), Ok(c)) => claims_fault(c, cfg, nonce, now),
        },
{
}

/// A token whose algorithm is neither of the two, or whose key is of another kind or not complete, is
/// refused for the first of these.
pub proof fn law_unusable_keys_are_refused(
    head: Seq<u8>,
    payload: Seq<u8>,
    sig: Seq<u8>,
    a: Seq<u8>,
    b: Seq<u8>,
    header: HeaderView,
    jwk: JwkView,
)
    ensures
        ({
            let r = token_payload(token_of(head, payload, sig), Ok(header), jwk);
            &&& header.alg != "RS256"@ && header.alg != "ES256"@ ==> r == refusal(
                ErrorKind::Algorithm,
                "unsupported id_token alg: "@ + header.alg,
            )
            &&& header.alg == "RS256"@ ==> {
                &&& jwk.kty != "RSA"@ ==> r == refusal(
                    ErrorKind::KeyType,
                    "RS256 token but JWK kty="@ + jwk.kty,
                )
                &&& jwk.kty == "RSA"@ && jwk.n is None ==> r == refusal(
                    ErrorKind::KeyComponent,
                    "JWK missing n"@,
                )
                &&& jwk.kty == "RSA"@ && jwk.n is Some && jwk.e is None ==> r == refusal(
                    ErrorKind::KeyComponent,
                    "JWK missing e"@,
                )
            }
            &&& header.alg == "ES256"@ ==> {
                &&& jwk.kty != "EC"@ ==> r == refusal(
                    ErrorKind::KeyType,
                    "ES256 token but JWK kty="@ + jwk.kty,
                )
                &&& jwk.kty == "EC"@ && jwk.x is None ==> r == refusal(
                    ErrorKind::KeyComponent,
                    "JWK missing x"@,
                )
                &&& jwk.kty == "EC"@ && jwk.x == Some(b64url_text(a)) && jwk.y is None ==> r == refusal(
                    ErrorKind::KeyComponent,
                    "JWK missing y"@,
                )
                &&& jwk.kty == "EC"@ && jwk.x == Some(b64url_text(a)) && jwk.y == Some(
                    b64url_text(b),
                ) && (a.len() != 32 || b.len() != 32) ==> r == refusal(
                    ErrorKind::BadKey,
                    "ES256 JWK coordinates must be 32 bytes (P-256)"@,
                )
            }
        }),
{
    reveal_strlit("RS256");
    reveal_strlit("ES256");
    assert("RS256"@[0] != "ES256"@[0]);
    lemma_token_parts(head, payload, sig);
    law_b64url_read_back(head);
    law_b64url_read_back(payload);
    law_b64url_read_back(sig);
    law_b64url_read_back(a);
    law_b64url_read_back(b);
}

/// The outcome of refusing a token.
pub open spec fn refusal(kind: ErrorKind, message: Seq<char>) -> Result<Seq<u8>, AuthErrorView> {
    Err(AuthErrorView { kind, message })
}

/// A token whose header or signature is not base64url is refused with what the decoder says, and so
/// is one whose payload is not, once the signature holds.
pub proof fn law_parts_must_decode(
    h: Seq<char>,
    p: Seq<char>,
    s: Seq<char>,
    header: HeaderView,
    jwk: JwkView,
)
    requires
        !h.contains('.') && !p.contains('.') && !s.contains('.'),
    ensures
        ({
            let r = token_payload(h + seq!['.'] + p + seq!['.'] + s, Ok(header), jwk);
            &&& b64url_decoded(h) matches Err(f) ==> r == Err::<Seq<u8>, AuthErrorView>(f)
            &&& b64url_decoded(h) is Ok ==> (b64url_decoded(s) matches Err(f) ==> r == Err::<
                Seq<u8>,
                AuthErrorView,
            >(f))
            &&& r is Ok ==> r == b64url_decoded(p)
        }),
{
    law_split_plain(h, '.');
    law_split_plain(p, '.');
    law_split_plain(s, '.');
    law_split_glued(p, s, '.');
    law_split_glued(h, p.push('.') + s, '.');
    assert(h.push('.') + (p.push('.') + s) == h + seq!['.'] + p + seq!['.'] + s);
    assert(seq![h] + (seq![p] + seq![s]) == seq![h, p, s]);
}

/// A token names the key that its header says, where the first part of it is base64url.
pub proof fn law_kid_of_the_header(head: Seq<u8>, rest: Seq<char>, header: HeaderView)
    ensures
        named_kid(b64url_text(head) + seq!['.'] + rest, Ok(header)) == Ok::<
            Option<Seq<char>>,
            AuthErrorView,
        >(header.kid),
{
    lemma_no_dot(head);
    law_split_plain(b64url_text(head), '.');
    law_split_glued(b64url_text(head), rest, '.');
    assert(b64url_text(head).push('.') + rest == b64url_text(head) + seq!['.'] + rest);
    law_b64url_read_back(head);
    assert(split(b64url_text(head) + seq!['.'] + rest, '.')[0] == b64url_text(head));
}

// ---------------------------------------------------------------------------
// Keys, endpoints and records of the provider
// ---------------------------------------------------------------------------

/// The first key of a fresh record that bears the name a token gives is the one the token is
/// verified with. The provider is not asked, and nothing but the name of the key matters.
pub proof fn law_known_key_needs_no_fetch(
    meta: TenantMetaView,
    id: Seq<char>,
    i: int,
    cfg: ConfigView,
    now: u64,
)
    requires
        now < meta.fetched_at + meta.max_age,
        0 < meta.max_age,
        0 <= i < meta.keys.len(),
        meta.keys[i].kid == Some(id),
        forall|j: int| 0 <= j < i ==> (#[trigger] meta.keys[j]).kid != Some(id),
    ensures
        key_next(
            Some(id),
            KeyStateView::Meta(MetaStateView::Cache),
            EventView::Meta(Some(meta)),
            cfg,
            now,
        ) == KeyNextView::Found(meta.keys[i]),
{
    law_named_key_is_found(meta.keys, id, i);
}

/// The same of a token that names no key: the only key of a fresh record is meant.
pub proof fn law_only_key_needs_no_fetch(meta: TenantMetaView, cfg: ConfigView, now: u64)
    requires
        now < meta.fetched_at + meta.max_age,
        0 < meta.max_age,
        meta.keys.len() == 1,
    ensures
        key_next(
            None,
            KeyStateView::Meta(MetaStateView::Cache),
            EventView::Meta(Some(meta)),
            cfg,
            now,
        ) == KeyNextView::Found(meta.keys[0]),
{
}

/// A key that a fresh record does not have is asked for at the provider when a minute has passed
/// since the last such question, and refused before that.
pub proof fn law_unknown_key_after_a_minute(
    meta: TenantMetaView,
    kid: Option<Seq<char>>,
    cfg: ConfigView,
    now: u64,
)
    requires
        now < meta.fetched_at + meta.max_age,
        0 < meta.max_age,
        key_for(meta.keys, kid) is None,
    ensures
        ({
            let r = key_next(
                kid,
                KeyStateView::Meta(MetaStateView::Cache),
                EventView::Meta(Some(meta)),
                cfg,
                now,
            );
            if now >= meta.last_kid_miss_fetch + 60 {
                r matches KeyNextView::Act(
                    KeyStateView::Refetch(MetaStateView::Discovery { why }),
                    ActionView::Send(req),
                ) && why is UnknownKid && req == plain_get(
                    cfg.issuer + "/.well-known/openid-configuration"@,
                )
            } else {
                r matches KeyNextView::Failed(f) && f.kind == ErrorKind::KidSuppressed
            }
        }),
{
}

/// A request for what is at `uri`, with nothing in it.
pub open spec fn plain_get(uri: Seq<char>) -> OutRequestView {
    OutRequestView { method: Method::Get, uri, headers: seq![], body: seq![] }
}

/// The record in the store is used while it is fresh; else the discovery document is asked for, at
/// its place below the issuer.
pub proof fn law_record_from_the_store(
    cached: Option<TenantMetaView>,
    cfg: ConfigView,
    now: u64,
)
    ensures
        ({
            let r = meta_next(MetaStateView::Cache, EventView::Meta(cached), cfg, now);
            if cached is Some && 0 < cached->Some_0.max_age && now < cached->Some_0.fetched_at
                + cached->Some_0.max_age {
                r == MetaNextView::Ready(cached->Some_0)
            } else {
                r matches MetaNextView::Act(
                    MetaStateView::Discovery { why: FetchReason::Stale { last_kid_miss_fetch } },
                    ActionView::Send(req),
                ) && req == plain_get(cfg.issuer + "/.well-known/openid-configuration"@)
                    && last_kid_miss_fetch == match cached {
                    Some(meta) => meta.last_kid_miss_fetch,
                    None => 0,
                }
            }
        }),
{
}

/// From a discovery document that came with success and has the four fields that are needed, the key
/// set is asked for at the place it names; the place for logging out may be missing.
pub proof fn law_discovery_leads_to_keys(
    why: FetchReason,
    status: u16,
    cache_control: Option<Seq<char>>,
    body: Seq<u8>,
    doc: Seq<(Seq<char>, Option<Seq<char>>)>,
    cfg: ConfigView,
    now: u64,
)
    requires
        200 <= status < 300,
        json_members(body) == Ok::<Seq<(Seq<char>, Option<Seq<char>>)>, Seq<char>>(doc),
    ensures
        ({
            let r = meta_next(
                MetaStateView::Discovery { why },
                EventView::Reply { status, cache_control, body },
                cfg,
                now,
            );
            let (i, a, t, j) = (
                member_text(doc, "issuer"@),
                member_text(doc, "authorization_endpoint"@),
                member_text(doc, "token_endpoint"@),
                member_text(doc, "jwks_uri"@),
            );
            if i is Some && a is Some && t is Some && j is Some {
                let disc = DiscoveryView {
                    issuer: i->Some_0,
                    authorization_endpoint: a->Some_0,
                    token_endpoint: t->Some_0,
                    end_session_endpoint: match member_text(doc, "end_session_endpoint"@) {
                        Some(e) => e,
                        None => seq![],
                    },
                    jwks_uri: j->Some_0,
                };
                r == MetaNextView::Act(
                    MetaStateView::Keys { disc, why },
                    ActionView::Send(plain_get(j->Some_0)),
                )
            } else {
                let missing = if i is None {
                    "issuer"@
                } else if a is None {
                    "authorization_endpoint"@
                } else if t is None {
                    "token_endpoint"@
                } else {
                    "jwks_uri"@
                };
                r == MetaNextView::Failed(
                    AuthErrorView {
                        kind: ErrorKind::DiscoveryField,
                        message: "discovery doc missing '"@ + missing + "'"@,
                    },
                )
            }
        }),
{
}

/// A key set that came with success and has `keys` is read, and the age that its header gives is
/// kept; without `keys` it is refused.
pub proof fn law_key_set_is_read(
    disc: DiscoveryView,
    why: FetchReason,
    status: u16,
    cache_control: Option<Seq<char>>,
    body: Seq<u8>,
    doc: Seq<(Seq<char>, Option<Seq<char>>)>,
    cfg: ConfigView,
    now: u64,
)
    requires
        200 <= status < 300,
        json_members(body) == Ok::<Seq<(Seq<char>, Option<Seq<char>>)>, Seq<char>>(doc),
    ensures
        meta_next(
            MetaStateView::Keys { disc, why },
            EventView::Reply { status, cache_control, body },
            cfg,
            now,
        ) == if member(doc, "keys"@) is Some {
            MetaNextView::Act(
                MetaStateView::Decode {
                    disc,
                    age: if cache_control is Some {
                        max_age(cache_control->Some_0)
                    } else {
                        None
                    },
                    why,
                },
                ActionView::DecodeKeys { document: body },
            )
        } else {
            MetaNextView::Failed(
                AuthErrorView { kind: ErrorKind::NoKeys, message: "JWKS missing 'keys'"@ },
            )
        },
{
}

/// A document that came without success, or is no JSON, is refused and its address named.
pub proof fn law_bad_documents_are_refused(
    disc: DiscoveryView,
    why: FetchReason,
    status: u16,
    cache_control: Option<Seq<char>>,
    body: Seq<u8>,
    e: Seq<char>,
    cfg: ConfigView,
    now: u64,
)
    ensures
        ({
            let asked = cfg.issuer + "/.well-known/openid-configuration"@;
            let ev = EventView::Reply { status, cache_control, body };
            let a = meta_next(MetaStateView::Discovery { why }, ev, cfg, now);
            let b = meta_next(MetaStateView::Keys { disc, why }, ev, cfg, now);
            &&& (status < 200 || status >= 300) ==> {
                &&& a == MetaNextView::Failed(
                    AuthErrorView {
                        kind: ErrorKind::Fetch,
                        message: "GET "@ + asked + " -> HTTP "@ + decimal(status as nat),
                    },
                )
                &&& b == MetaNextView::Failed(
                    AuthErrorView {
                        kind: ErrorKind::Fetch,
                        message: "GET "@ + disc.jwks_uri + " -> HTTP "@ + decimal(status as nat),
                    },
                )
            }
            &&& 200 <= status < 300 && json_members(body) == Err::<
                Seq<(Seq<char>, Option<Seq<char>>)>,
                Seq<char>,
            >(e) ==> {
                &&& a == MetaNextView::Failed(
                    AuthErrorView {
                        kind: ErrorKind::Json,
                        message: "parse JSON from "@ + asked + ": "@ + e,
                    },
                )
                &&& b == MetaNextView::Failed(
                    AuthErrorView {
                        kind: ErrorKind::Json,
                        message: "parse JSON from "@ + disc.jwks_uri + ": "@ + e,
                    },
                )
            }
            &&& meta_next(MetaStateView::Discovery { why }, EventView::Failed(e), cfg, now)
                == MetaNextView::Failed(
                AuthErrorView { kind: ErrorKind::Fetch, message: "GET "@ + asked + ": "@ + e },
            )
            &&& meta_next(MetaStateView::Keys { disc, why }, EventView::Failed(e), cfg, now)
                == MetaNextView::Failed(
                AuthErrorView {
                    kind: ErrorKind::Fetch,
                    message: "GET "@ + disc.jwks_uri + ": "@ + e,
                },
            )
        }),
{
}

/// The record that is written holds what discovery document and key set said, all keys of it, and
/// when that was; once it is written, it is the one that is used.
pub proof fn law_record_holds_what_was_fetched(
    disc: DiscoveryView,
    age: Option<u64>,
    why: FetchReason,
    keys: Seq<JwkView>,
    meta: TenantMetaView,
    e: Seq<char>,
    cfg: ConfigView,
    now: u64,
)
    ensures
        meta_next(
            MetaStateView::Decode { disc, age, why },
            EventView::Keys(Ok(keys)),
            cfg,
            now,
        ) matches MetaNextView::Act(
            MetaStateView::Save { meta: kept },
            ActionView::WriteMeta { key, record },
        ) && kept == record && key == "jwks:v2:"@ + cfg.tenant && record.issuer == disc.issuer
            && record.authorization_endpoint == disc.authorization_endpoint && record.token_endpoint
            == disc.token_endpoint && record.end_session_endpoint == disc.end_session_endpoint
            && record.jwks_uri == disc.jwks_uri && record.keys == keys && record.fetched_at == now
            && record.max_age == (if age is Some {
            age->Some_0
        } else {
            3600
        }) && record.last_kid_miss_fetch == match why {
            FetchReason::Stale { last_kid_miss_fetch } => last_kid_miss_fetch,
            FetchReason::UnknownKid => now,
        },
        meta_next(MetaStateView::Save { meta }, EventView::Done, cfg, now) == MetaNextView::Ready(
            meta,
        ),
        meta_next(
            MetaStateView::Decode { disc, age, why },
            EventView::Keys(Err(e)),
            cfg,
            now,
        ) == MetaNextView::Failed(AuthErrorView { kind: ErrorKind::Json, message: e }),
        meta_next(MetaStateView::Save { meta }, EventView::Failed(e), cfg, now)
            == MetaNextView::Failed(AuthErrorView { kind: ErrorKind::Store, message: e }),
        meta_next(MetaStateView::Cache, EventView::Failed(e), cfg, now) == MetaNextView::Failed(
            AuthErrorView { kind: ErrorKind::Store, message: e },
        ),
{
}

/// After a fetch the key that is named is used where the new record has it, whatever the reason for
/// the fetch was; where it has not, no further fetch is made.
pub proof fn law_key_of_a_new_record(
    meta: TenantMetaView,
    kid: Option<Seq<char>>,
    chased: bool,
    cfg: ConfigView,
    now: u64,
)
    ensures
        ({
            let saved = MetaStateView::Save { meta };
            let st = if chased {
                KeyStateView::Refetch(saved)
            } else {
                KeyStateView::Meta(saved)
            };
            let r = key_next(kid, st, EventView::Done, cfg, now);
            match key_for(meta.keys, kid) {
                Some(k) => r == KeyNextView::Found(k),
                None => if !chased && now < meta.last_kid_miss_fetch + 60 {
                    r matches KeyNextView::Failed(f) && f.kind == ErrorKind::KidSuppressed
                } else {
                    r == KeyNextView::Act(
                        KeyStateView::Stamp,
                        ActionView::WriteMeta {
                            key: "jwks:v2:"@ + cfg.tenant,
                            record: TenantMetaView { last_kid_miss_fetch: now, ..meta },
                        },
                    )
                },
            }
        }),
{
}

/// While the record is being got, the getting of a key does what that asks for; what goes wrong in it
/// ends it; and once it is noted that a key is unknown, the key is refused.
pub proof fn law_key_follows_the_record(
    kid: Option<Seq<char>>,
    m: MetaStateView,
    ev: EventView,
    e: Seq<char>,
    cfg: ConfigView,
    now: u64,
)
    ensures
        ({
            let a = key_next(kid, KeyStateView::Meta(m), ev, cfg, now);
            let b = key_next(kid, KeyStateView::Refetch(m), ev, cfg, now);
            match meta_next(m, ev, cfg, now) {
                MetaNextView::Act(next, act) => {
                    &&& a == KeyNextView::Act(KeyStateView::Meta(next), act)
                    &&& b == KeyNextView::Act(KeyStateView::Refetch(next), act)
                },
                MetaNextView::Failed(f) => a == KeyNextView::Failed(f) && b == KeyNextView::Failed(f),
                MetaNextView::Ready(meta) => key_for(meta.keys, kid) is Some ==> a
                    == KeyNextView::Found(key_for(meta.keys, kid)->Some_0) && a == b,
            }
        }),
        key_next(kid, KeyStateView::Stamp, EventView::Done, cfg, now) == KeyNextView::Failed(
            AuthErrorView {
                kind: ErrorKind::KidUnknown,
                message: "no signing key for kid after refetch"@,
            },
        ),
        key_next(kid, KeyStateView::Stamp, EventView::Failed(e), cfg, now) == KeyNextView::Failed(
            AuthErrorView { kind: ErrorKind::Store, message: e },
        ),
{
}

// ---------------------------------------------------------------------------
// Responses
// ---------------------------------------------------------------------------

/// What a redirect and a plain text are, header by header.
pub proof fn law_responses(
    location: Seq<char>,
    set_cookie: Seq<char>,
    status: u16,
    body: Seq<char>,
    e: AuthErrorView,
)
    ensures
        redirect_view(location) == (ResponseView {
            status: 302,
            headers: seq![("location"@, location), ("cache-control"@, "no-store"@)],
            body: seq![],
        }),
        redirect_with_cookie_view(location, set_cookie) == (ResponseView {
            status: 302,
            headers: seq![
                ("location"@, location),
                ("set-cookie"@, set_cookie),
                ("cache-control"@, "no-store"@),
            ],
            body: seq![],
        }),
        text_view(status, body) == (ResponseView {
            status,
            headers: seq![
                ("content-type"@, "text/plain; charset=utf-8"@),
                ("cache-control"@, "no-store"@),
            ],
            body,
        }),
        error_view(e) == text_view(500, "auth component error: "@ + e.message),
{
}

// ---------------------------------------------------------------------------
// Configuration
// ---------------------------------------------------------------------------

/// A configuration is made if and only if the five variables that have to be there could be read;
/// else the first of them that could not says why.
pub proof fn law_required_variables(vars: Variables)
    ensures
        first_unread(vars) is None <==> vars.issuer is Ok && vars.client_id is Ok
            && vars.client_secret is Ok && vars.redirect_uri is Ok && vars.cp_forward_secret is Ok,
        first_unread(vars) matches Some(why) ==> why == if vars.issuer is Err {
            vars.issuer->Err_0@
        } else if vars.client_id is Err {
            vars.client_id->Err_0@
        } else if vars.client_secret is Err {
            vars.client_secret->Err_0@
        } else if vars.redirect_uri is Err {
            vars.redirect_uri->Err_0@
        } else {
            vars.cp_forward_secret->Err_0@
        },
{
}

/// The configuration has the variables as they are, the issuer without slashes at its end, and for
/// those that are not there what stands in for them.
pub proof fn law_configuration(vars: Variables, base: Seq<char>, slashes: Seq<char>)
    requires
        first_unread(vars) is None,
        vars.issuer->Ok_0@ == base + slashes,
        base.len() > 0 ==> base[base.len() - 1] != '/',
        forall|i: int| 0 <= i < slashes.len() ==> #[trigger] slashes[i] == '/',
    ensures
        ({
            let cfg = configured(vars);
            &&& cfg.issuer == base
            &&& cfg.client_id == vars.client_id->Ok_0@
            &&& cfg.client_secret == vars.client_secret->Ok_0@
            &&& cfg.redirect_uri == vars.redirect_uri->Ok_0@
            &&& cfg.cp_forward_secret == vars.cp_forward_secret->Ok_0@
            &&& cfg.tenant == match vars.tenant {
                Some(s) => s@,
                None => "default"@,
            }
            &&& cfg.audience == match vars.audience {
                Some(s) => s@,
                None => Seq::<char>::empty(),
            }
            &&& cfg.admin_group == match vars.admin_group {
                Some(s) => s@,
                None => "cp-admins"@,
            }
            &&& cfg.scopes == match vars.scopes {
                Some(s) => s@,
                None => "openid profile email groups"@,
            }
            &&& cfg.session_ttl_secs == match vars.session_ttl_secs {
                Some(s) => if number(s@) is Some {
                    number(s@)->Some_0
                } else {
                    3600
                },
                None => 3600,
            }
        }),
{
    lemma_slashes_off(base, slashes);
}

proof fn lemma_slashes_off(base: Seq<char>, slashes: Seq<char>)
    requires
        base.len() > 0 ==> base[base.len() - 1] != '/',
        forall|i: int| 0 <= i < slashes.len() ==> #[trigger] slashes[i] == '/',
    ensures
        trim_end_of(base + slashes, '/') == base,
    decreases slashes.len(),
{
    if slashes.len() == 0 {
        assert(base + slashes == base);
    } else {
        assert(slashes[slashes.len() - 1] == '/');
        assert((base + slashes).drop_last() == base + slashes.drop_last());
        assert forall|i: int| 0 <= i < slashes.drop_last().len() implies #[trigger] slashes.drop_last()[i]
            == '/' by {
            assert(slashes[i] == '/');
        }
        lemma_slashes_off(base, slashes.drop_last());
    }
}

// ---------------------------------------------------------------------------
// The routes
// ---------------------------------------------------------------------------

/// Every path on this site is kept as the way back: any text that begins with a slash, unless a
/// second one follows it, in either direction. Every other text gives way to the root.
pub proof fn law_way_back_kept(v: Seq<char>)
    ensures
        v.len() > 0 && v[0] == '/' && (v.len() == 1 || v[1] != '/' && v[1] != '\\')
            ==> return_target(Some(v)) == v && sanitized(v) == v,
        v.len() == 0 || v[0] != '/' || v.len() > 1 && (v[1] == '/' || v[1] == '\\')
            ==> return_target(Some(v)) == seq!['/'] && sanitized(v) == seq!['/'],
        return_target(None) == seq!['/'],
{
    reveal_strlit("/");
    reveal_strlit("//");
    reveal_strlit("/\\");
    assert("/"@ == seq!['/']);
    assert("//"@ == seq!['/', '/']);
    assert("/\\"@ == seq!['/', '\\']);
    if v.len() > 0 {
        assert(v.take(1)[0] == v[0]);
        if v[0] == '/' {
            assert(v.take(1) == "/"@);
        }
    }
    if v.len() > 1 {
        assert(v.take(2)[1] == v[1]);
        if v[0] == '/' && v[1] == '/' {
            assert(v.take(2) == "//"@);
        }
        if v[0] == '/' && v[1] == '\\' {
            assert(v.take(2) == "/\\"@);
        }
    }
}

/// The application's address is its redirect address without `/callback` at the end, whatever comes
/// before that; a redirect address that ends otherwise is the application's address itself.
pub proof fn law_application_address(base: Seq<char>, other: Seq<char>)
    requires
        forall|b: Seq<char>| other != #[trigger] (b + "/callback"@),
    ensures
        crate::flow::app_base_text(base + "/callback"@) == base,
        crate::flow::app_base_text(other) == other,
{
    let whole = base + "/callback"@;
    law_suffix(whole, "/callback"@, base);
    assert(whole.take(whole.len() - "/callback"@.len()) == base);
    if has_suffix(other, "/callback"@) {
        law_suffix(other, "/callback"@, base);
        let b = other.take(other.len() - "/callback"@.len());
        assert(other == b + "/callback"@);
    }
}

/// Which flow a request begins, and with which action: by its path alone, the three that are routes
/// of their own and all the others, which are protected.
pub proof fn law_routes(req: RequestView, pairs: Seq<(Seq<char>, Seq<char>)>, cfg: ConfigView)
    ensures
        ({
            let r = dispatched(req, pairs, cfg);
            let sid = if req.cookie is Some {
                cookie(req.cookie->Some_0, "cp_session"@)
            } else {
                None
            };
            let read_record = ActionView::ReadMeta { key: "jwks:v2:"@ + cfg.tenant };
            &&& req.path == "/login"@ ==> r == StepView::Act(
                FlowView::Login(
                    LoginStateView::Meta {
                        meta: MetaStateView::Cache,
                        return_to: return_target(value_of(pairs, "return_to"@)),
                    },
                ),
                read_record,
            )
            &&& req.path == "/callback"@ ==> {
                let (error, code, state) = (
                    value_of(pairs, "error"@),
                    value_of(pairs, "code"@),
                    value_of(pairs, "state"@),
                );
                if error is Some {
                    let description = match value_of(pairs, "error_description"@) {
                        Some(d) => d,
                        None => seq![],
                    };
                    r == StepView::Respond(
                        text_view(
                            401,
                            "IdP returned error: "@ + error->Some_0 + " "@ + description,
                        ),
                    )
                } else if code is None {
                    r == StepView::Fail(
                        AuthErrorView { kind: ErrorKind::MissingCode, message: "missing code"@ },
                    )
                } else if state is None {
                    r == StepView::Fail(
                        AuthErrorView { kind: ErrorKind::MissingState, message: "missing state"@ },
                    )
                } else {
                    r == StepView::Act(
                        FlowView::Callback(
                            CallbackStateView::Take { code: code->Some_0, state: state->Some_0 },
                        ),
                        ActionView::ReadPkce { key: "pkce:"@ + state->Some_0 },
                    )
                }
            }
            &&& req.path == "/logout"@ ==> r == match sid {
                Some(id) => StepView::Act(
                    FlowView::Logout(LogoutStateView::Lookup { sid: id }),
                    ActionView::ReadSession { key: "sess:"@ + id },
                ),
                None => StepView::Act(
                    FlowView::Logout(
                        LogoutStateView::Meta { hint: None, meta: MetaStateView::Cache },
                    ),
                    read_record,
                ),
            }
            &&& req.path != "/login"@ && req.path != "/callback"@ && req.path != "/logout"@ ==> r
                == match sid {
                Some(id) => StepView::Act(
                    FlowView::Protected(
                        ProtectedStateView::Lookup { sid: id, path: req.path },
                    ),
                    ActionView::ReadSession { key: "sess:"@ + id },
                ),
                None => StepView::Respond(
                    redirect_view("/login?"@ + form_query(seq![("return_to"@, req.path)])),
                ),
            }
        }),
{
    reveal_strlit("/login");
    reveal_strlit("/callback");
    reveal_strlit("/logout");
    assert("/login"@.len() == 6 && "/callback"@.len() == 9 && "/logout"@.len() == 7);
}

/// With the provider's record at hand, a login is kept in the store and the browser sent to the
/// provider with what goes with it; the verifier is kept, its challenge is sent. Only want of entropy
/// is in the way.
pub proof fn law_login_is_begun(
    return_to: Seq<char>,
    meta: TenantMetaView,
    cfg: ConfigView,
    now: u64,
    r: StepView,
)
    requires
        login_goes(
            LoginStateView::Meta { meta: MetaStateView::Save { meta }, return_to },
            EventView::Done,
            cfg,
            now,
            r,
        ),
    ensures
        match r {
            StepView::Act(
                FlowView::Login(LoginStateView::Save { location }),
                ActionView::WritePkce { key, record },
            ) => exists|state: Seq<char>|
                {
                    &&& key == #[trigger] ("pkce:"@ + state)
                    &&& record.return_to == return_to
                    &&& record.created == now
                    &&& location == meta.authorization_endpoint + "?"@ + form_query(
                        seq![
                            ("response_type"@, "code"@),
                            ("client_id"@, cfg.client_id),
                            ("redirect_uri"@, cfg.redirect_uri),
                            ("scope"@, cfg.scopes),
                            ("state"@, state),
                            ("nonce"@, record.nonce),
                            (
                                "code_challenge"@,
                                b64url_text(sha256(encode_utf8(record.verifier))),
                            ),
                            ("code_challenge_method"@, "S256"@),
                        ],
                    )
                    &&& drawn_text(24, state)
                    &&& drawn_text(24, record.nonce)
                    &&& drawn_text(32, record.verifier)
                },
            StepView::Fail(f) => refused_entropy(32, f) || refused_entropy(24, f),
            _ => false,
        },
{
    let b = choose|b: Result<(PkceStartView, PkceRecordView), AuthErrorView>| #[trigger]
        begun(b, return_to, now) && r == crate::flow::login_ready(meta, b, cfg);
    if let Ok((start, rec)) = b {
        let draw = choose|draw: PkceDraw| #[trigger]
            draw_wf(draw) && start == start_of(draw) && rec == record_of(draw, return_to, now);
        assert(drawn_text(24, start.state));
        assert(drawn_text(24, rec.nonce));
        assert(drawn_text(32, rec.verifier));
        assert("pkce:"@ + start.state == "pkce:"@ + start.state);
    }
}

/// Is `s` the base64url text of `n` bytes of entropy that were drawn?
pub open spec fn drawn_text(n: usize, s: Seq<char>) -> bool {
    exists|bytes: Seq<u8>|
        entropy_gives(n, bytes) && bytes.len() == n && s == #[trigger] b64url_text(bytes)
}

/// Once the pending login is written the browser is sent on; and while the record is being got, the
/// way back stays what it is.
pub proof fn law_login_goes_on(
    location: Seq<char>,
    meta: MetaStateView,
    return_to: Seq<char>,
    ev: EventView,
    cfg: ConfigView,
    now: u64,
    sent: StepView,
    r: StepView,
)
    requires
        login_goes(LoginStateView::Save { location }, EventView::Done, cfg, now, sent),
        login_goes(LoginStateView::Meta { meta, return_to }, ev, cfg, now, r),
    ensures
        sent == StepView::Respond(redirect_view(location)),
        match meta_next(meta, ev, cfg, now) {
            MetaNextView::Act(next, act) => r == StepView::Act(
                FlowView::Login(LoginStateView::Meta { meta: next, return_to }),
                act,
            ),
            MetaNextView::Failed(f) => r == StepView::Fail(f),
            MetaNextView::Ready(m) => login_goes(
                LoginStateView::Meta { meta: MetaStateView::Save { meta: m }, return_to },
                EventView::Done,
                cfg,
                now,
                r,
            ),
        },
{
}

/// What comes next about a request is what comes next in its flow.
pub proof fn law_each_flow_its_own(
    login: LoginStateView,
    callback: CallbackStateView,
    logout: LogoutStateView,
    protected: ProtectedStateView,
    ev: EventView,
    cfg: ConfigView,
    now: u64,
    r: StepView,
)
    ensures
        flow_goes(FlowView::Login(login), ev, cfg, now, r) <==> login_goes(login, ev, cfg, now, r),
        flow_goes(FlowView::Callback(callback), ev, cfg, now, r) <==> callback_goes(
            callback,
            ev,
            cfg,
            now,
            r,
        ),
        flow_goes(FlowView::Logout(logout), ev, cfg, now, r) <==> r == logout_next(
            logout,
            ev,
            cfg,
            now,
        ),
        flow_goes(FlowView::Protected(protected), ev, cfg, now, r) <==> r == protected_next(
            protected,
            ev,
            cfg,
            now,
        ),
{
}

/// A pending login that was found under the state of the answer is deleted there, and then gone on
/// with just as it was found, with the code of the answer; where none is found the answer is refused.
pub proof fn law_pending_login_deleted(
    code: Seq<char>,
    state: Seq<char>,
    found: Option<Result<PkceRecordView, Seq<char>>>,
    cfg: ConfigView,
    now: u64,
    r: StepView,
)
    requires
        callback_goes(
            CallbackStateView::Take { code, state },
            EventView::Pkce(found),
            cfg,
            now,
            r,
        ),
    ensures
        r == match found {
            Some(record) => StepView::Act(
                FlowView::Callback(CallbackStateView::Spend { code, found: record }),
                ActionView::Delete { key: "pkce:"@ + state },
            ),
            None => StepView::Fail(
                AuthErrorView {
                    kind: ErrorKind::UnknownState,
                    message: "unknown or expired state"@,
                },
            ),
        },
{
}

/// What a login tells the provider and what it keeps, by the entropy that was drawn for each: the
/// state, the nonce and the verifier have each their own.
pub proof fn law_login_by_its_draws(draw: PkceDraw, return_to: Seq<char>, now: u64)
    ensures
        start_of(draw) == (PkceStartView {
            state: b64url_text(draw.state),
            nonce: b64url_text(draw.nonce),
            code_challenge: b64url_text(sha256(encode_utf8(b64url_text(draw.verifier)))),
        }),
        record_of(draw, return_to, now) == (PkceRecordView {
            verifier: b64url_text(draw.verifier),
            nonce: b64url_text(draw.nonce),
            return_to,
            created: now,
        }),
        draw_wf(draw) <==> {
            &&& draw.verifier.len() == 32 && entropy_gives(32, draw.verifier)
            &&& draw.state.len() == 24 && entropy_gives(24, draw.state)
            &&& draw.nonce.len() == 24 && entropy_gives(24, draw.nonce)
        },
{
}

/// A record of a pending login that was found and deleted is taken up for five minutes after it was
/// made, whatever it holds; after that it is refused, and so is one that cannot be read.
pub proof fn law_pending_login_taken_up(
    code: Seq<char>,
    found: Result<PkceRecordView, Seq<char>>,
    cfg: ConfigView,
    now: u64,
    r: StepView,
)
    requires
        callback_goes(
            CallbackStateView::Spend { code, found },
            EventView::Done,
            cfg,
            now,
            r,
        ),
    ensures
        r == match found {
            Err(e) => StepView::Fail(AuthErrorView { kind: ErrorKind::Json, message: e }),
            Ok(rec) => if now <= rec.created + 300 {
                StepView::Act(
                    FlowView::Callback(
                        CallbackStateView::Meta { code, rec, meta: MetaStateView::Cache },
                    ),
                    ActionView::ReadMeta { key: "jwks:v2:"@ + cfg.tenant },
                )
            } else {
                StepView::Fail(
                    AuthErrorView { kind: ErrorKind::StateExpired, message: "state expired"@ },
                )
            },
        },
        pending_fault(None, now) == Some(
            AuthErrorView {
                kind: ErrorKind::UnknownState,
                message: "unknown or expired state"@,
            },
        ),
        pending_fault(Some(found), now) is None <==> found is Ok && now <= found->Ok_0.created + 300,
{
}

/// With the provider's record at hand, the code is exchanged at its token endpoint, with the verifier
/// of the pending login and the secret of the client.
pub proof fn law_code_is_exchanged(
    code: Seq<char>,
    rec: PkceRecordView,
    meta: TenantMetaView,
    cfg: ConfigView,
    now: u64,
    r: StepView,
)
    requires
        callback_goes(
            CallbackStateView::Meta { code, rec, meta: MetaStateView::Save { meta } },
            EventView::Done,
            cfg,
            now,
            r,
        ),
    ensures
        r == StepView::Act(
            FlowView::Callback(CallbackStateView::Exchange { rec }),
            ActionView::Send(
                OutRequestView {
                    method: Method::Post,
                    uri: meta.token_endpoint,
                    headers: seq![
                        ("content-type"@, "application/x-www-form-urlencoded"@),
                        ("accept"@, "application/json"@),
                    ],
                    body: form_query(
                        seq![
                            ("grant_type"@, "authorization_code"@),
                            ("code"@, code),
                            ("redirect_uri"@, cfg.redirect_uri),
                            ("client_id"@, cfg.client_id),
                            ("client_secret"@, cfg.client_secret),
                            ("code_verifier"@, rec.verifier),
                        ],
                    ),
                },
            ),
        ),
{
}

/// From a reply of the token endpoint that came with success, the identity token in it is gone on
/// with, whatever else the reply holds; any other reply is refused.
pub proof fn law_token_is_taken(
    rec: PkceRecordView,
    status: u16,
    cache_control: Option<Seq<char>>,
    body: Seq<u8>,
    cfg: ConfigView,
    now: u64,
    r: StepView,
)
    requires
        callback_goes(
            CallbackStateView::Exchange { rec },
            EventView::Reply { status, cache_control, body },
            cfg,
            now,
            r,
        ),
    ensures
        if status < 200 || status >= 300 {
            r == StepView::Fail(
                AuthErrorView {
                    kind: ErrorKind::TokenEndpoint,
                    message: "token endpoint -> HTTP "@ + decimal(status as nat) + ": "@ + lossy(
                        body,
                    ),
                },
            )
        } else {
            match json_members(body) {
                Err(e) => r == StepView::Fail(AuthErrorView { kind: ErrorKind::Json, message: e }),
                Ok(doc) => match member_text(doc, "id_token"@) {
                    None => r == StepView::Fail(
                        AuthErrorView {
                            kind: ErrorKind::NoIdToken,
                            message: "token response has no id_token"@,
                        },
                    ),
                    Some(id_token) => match b64url_decoded(split(id_token, '.')[0]) {
                        Err(f) => r == StepView::Fail(f),
                        Ok(json) => r == StepView::Act(
                            FlowView::Callback(CallbackStateView::Header { rec, id_token }),
                            ActionView::DecodeHeader { json },
                        ),
                    },
                },
            }
        },
{
}

/// With its header read, the key of a token is looked for; with its key found, the token goes on to
/// its claims if and only if its signature holds.
pub proof fn law_token_meets_its_key(
    rec: PkceRecordView,
    id_token: Seq<char>,
    header: HeaderView,
    key: KeyStateView,
    ev: EventView,
    cfg: ConfigView,
    now: u64,
    read: StepView,
    r: StepView,
)
    requires
        callback_goes(
            CallbackStateView::Header { rec, id_token },
            EventView::Header(Ok(header)),
            cfg,
            now,
            read,
        ),
        callback_goes(CallbackStateView::Key { rec, id_token, header, key }, ev, cfg, now, r),
    ensures
        read == StepView::Act(
            FlowView::Callback(
                CallbackStateView::Key {
                    rec,
                    id_token,
                    header,
                    key: KeyStateView::Meta(MetaStateView::Cache),
                },
            ),
            ActionView::ReadMeta { key: "jwks:v2:"@ + cfg.tenant },
        ),
        match key_next(header.kid, key, ev, cfg, now) {
            KeyNextView::Act(next, act) => r == StepView::Act(
                FlowView::Callback(CallbackStateView::Key { rec, id_token, header, key: next }),
                act,
            ),
            KeyNextView::Failed(f) => r == StepView::Fail(f),
            KeyNextView::Found(jwk) => match token_payload(id_token, Ok(header), jwk) {
                Err(f) => r == StepView::Fail(f),
                Ok(json) => r == StepView::Act(
                    FlowView::Callback(CallbackStateView::Claims { rec, id_token, header, jwk }),
                    ActionView::DecodeClaims { json },
                ),
            },
        },
{
}

/// With the session written, the browser is sent back to where the login began, and given a cookie
/// that scripts cannot read and that lives as long as the session.
pub proof fn law_browser_gets_its_cookie(
    sid: Seq<char>,
    return_to: Seq<char>,
    cfg: ConfigView,
    now: u64,
    r: StepView,
)
    requires
        callback_goes(
            CallbackStateView::Save { sid, return_to },
            EventView::Done,
            cfg,
            now,
            r,
        ),
    ensures
        r == StepView::Respond(
            redirect_with_cookie_view(
                return_to,
                "cp_session"@ + "="@ + sid + "; HttpOnly; Secure; SameSite=Lax; Path=/; Max-Age="@
                    + decimal(cfg.session_ttl_secs as nat),
            ),
        ),
{
}

/// What was found of a session is live until its end, whatever it holds; it is over from then on.
pub proof fn law_session_until_its_end(s: SessionView, e: Seq<char>, now: u64)
    ensures
        now < s.exp ==> looked_up(Some(Ok(s)), now) == Ok::<LookupView, AuthErrorView>(
            LookupView::Live(s),
        ),
        now >= s.exp ==> looked_up(Some(Ok(s)), now) == Ok::<LookupView, AuthErrorView>(
            LookupView::Expired,
        ),
        looked_up(None, now) == Ok::<LookupView, AuthErrorView>(LookupView::Absent),
        looked_up(Some(Err(e)), now) == Err::<LookupView, AuthErrorView>(
            AuthErrorView { kind: ErrorKind::Json, message: e },
        ),
{
}

/// A session is made of what the token said, under the id that was drawn.
pub proof fn law_session_as_created(
    bytes: Seq<u8>,
    cfg: ConfigView,
    sub: Seq<char>,
    email: Seq<char>,
    groups: Seq<Seq<char>>,
    id_token: Seq<char>,
    now: u64,
)
    requires
        now + cfg.session_ttl_secs <= u64::MAX,
    ensures
        created_with(Ok(bytes), cfg, sub, email, groups, id_token, now) matches Ok((id, s)) && id
            == b64url_text(bytes) && s == new_session(cfg, sub, email, groups, id_token, now)
            && s.sub == sub && s.email == email && s.groups == groups && s.idp_tenant == cfg.tenant
            && s.exp == now + cfg.session_ttl_secs && s.id_token == id_token,
{
}

/// With a live session a request is forwarded if and only if one of its groups, wherever it stands
/// among them, is the admin group; else it is answered 403, and told which group is missing. No
/// session, or none that lives, and the browser goes to the login with the way back.
pub proof fn law_any_group_opens_the_way(
    sid: Seq<char>,
    path: Seq<char>,
    sess: SessionView,
    cfg: ConfigView,
    now: u64,
)
    ensures
        ({
            let asked = ProtectedStateView::Lookup { sid, path };
            let r = protected_next(asked, EventView::Session(Some(Ok(sess))), cfg, now);
            let to_login = StepView::Respond(
                redirect_view("/login?"@ + form_query(seq![("return_to"@, path)])),
            );
            let forwarded = StepView::Act(
                FlowView::Protected(ProtectedStateView::Forward),
                ActionView::Forward(
                    OutRequestView {
                        method: Method::Get,
                        uri: "http://cp-landing.spin.internal/__cp/"@,
                        headers: seq![
                            ("x-cp-forward-secret"@, cfg.cp_forward_secret),
                            ("x-auth-sub"@, sess.sub),
                            ("x-auth-email"@, sess.email),
                            ("x-auth-groups"@, join(sess.groups, ","@)),
                        ],
                        body: seq![],
                    },
                ),
            );
            let forbidden = StepView::Respond(
                text_view(
                    403,
                    "403 Forbidden: '"@ + cfg.admin_group
                        + "' is required to access the control plane.\nYou are '"@ + sess.email
                        + "' with groups "@ + shown_list(sess.groups) + "."@,
                ),
            );
            &&& (forall|i: int|
                0 <= i < sess.groups.len() && #[trigger] sess.groups[i] == cfg.admin_group && now
                    < sess.exp ==> r == forwarded)
            &&& now < sess.exp && (forall|i: int|
                0 <= i < sess.groups.len() ==> #[trigger] sess.groups[i] != cfg.admin_group) ==> r
                == forbidden
            &&& now >= sess.exp ==> r == StepView::Act(
                FlowView::Protected(ProtectedStateView::Expire { path }),
                ActionView::Delete { key: "sess:"@ + sid },
            )
            &&& protected_next(asked, EventView::Session(None), cfg, now) == to_login
            &&& protected_next(
                ProtectedStateView::Expire { path },
                EventView::Done,
                cfg,
                now,
            ) == to_login
        }),
{
    assert forall|i: int|
        0 <= i < sess.groups.len() && #[trigger] sess.groups[i] == cfg.admin_group implies sess.groups.contains(
        cfg.admin_group,
    ) by {}
}

/// The groups of a session other than the admin group, and their order, make no difference to who is
/// let in.
pub proof fn law_other_groups_do_not_matter(
    before: Seq<Seq<char>>,
    after: Seq<Seq<char>>,
    sid: Seq<char>,
    path: Seq<char>,
    sess: SessionView,
    cfg: ConfigView,
    now: u64,
)
    requires
        now < sess.exp,
        sess.groups == before.push(cfg.admin_group) + after,
    ensures
        protected_next(
            ProtectedStateView::Lookup { sid, path },
            EventView::Session(Some(Ok(sess))),
            cfg,
            now,
        ) matches StepView::Act(_, ActionView::Forward(_)),
{
    assert(sess.groups[before.len() as int] == cfg.admin_group);
    law_any_group_opens_the_way(sid, path, sess, cfg, now);
}

/// A logout deletes the session under the id of the request, with the token of a live one for a
/// hint, and goes on to the provider once that is done.
pub proof fn law_logout_deletes(
    sid: Seq<char>,
    sess: SessionView,
    hint: Option<Seq<char>>,
    cfg: ConfigView,
    now: u64,
)
    ensures
        ({
            let asked = LogoutStateView::Lookup { sid };
            let delete = ActionView::Delete { key: "sess:"@ + sid };
            &&& logout_next(asked, EventView::Session(Some(Ok(sess))), cfg, now) == if now < sess.exp {
                StepView::Act(
                    FlowView::Logout(LogoutStateView::Revoke { sid, hint: Some(sess.id_token) }),
                    delete,
                )
            } else {
                StepView::Act(FlowView::Logout(LogoutStateView::Expire { sid }), delete)
            }
            &&& logout_next(asked, EventView::Session(None), cfg, now) == StepView::Act(
                FlowView::Logout(LogoutStateView::Revoke { sid, hint: None }),
                delete,
            )
            &&& logout_next(LogoutStateView::Expire { sid }, EventView::Done, cfg, now)
                == StepView::Act(
                FlowView::Logout(LogoutStateView::Revoke { sid, hint: None }),
                delete,
            )
            &&& logout_next(LogoutStateView::Revoke { sid, hint }, EventView::Done, cfg, now)
                == StepView::Act(
                FlowView::Logout(LogoutStateView::Meta { hint, meta: MetaStateView::Cache }),
                ActionView::ReadMeta { key: "jwks:v2:"@ + cfg.tenant },
            )
        }),
{
}

/// A logout sends the browser to the place where the provider ends its session, and tells it to come
/// back to the login of the application: `/login` in the place of `/callback`. The provider is told
/// whose session it is where that is known, and which client asks where it is not. An application
/// whose redirect address ends otherwise has its login below that address. Without such a
/// place the browser goes straight to the login. The cookie is removed in any case.
pub proof fn law_logout_at_the_provider(
    base: Seq<char>,
    hint: Option<Seq<char>>,
    meta: TenantMetaView,
    cfg: ConfigView,
    now: u64,
)
    requires
        cfg.redirect_uri == base + "/callback"@ || cfg.redirect_uri == base && forall|b: Seq<char>|
            base != #[trigger] (b + "/callback"@),
    ensures
        ({
            let back = ("post_logout_redirect_uri"@, base + "/login"@);
            let who = match hint {
                Some(token) => if token.len() > 0 {
                    ("id_token_hint"@, token)
                } else {
                    ("client_id"@, cfg.client_id)
                },
                None => ("client_id"@, cfg.client_id),
            };
            let location = if meta.end_session_endpoint.len() == 0 {
                "/login"@
            } else {
                meta.end_session_endpoint + "?"@ + form_query(seq![back, who])
            };
            logout_next(
                LogoutStateView::Meta { hint, meta: MetaStateView::Save { meta } },
                EventView::Done,
                cfg,
                now,
            ) == StepView::Respond(
                redirect_with_cookie_view(
                    location,
                    "cp_session"@ + "=; HttpOnly; Secure; SameSite=Lax; Path=/; Max-Age=0"@,
                ),
            )
        }),
{
    law_suffix(cfg.redirect_uri, "/callback"@, base);
    let cut = cfg.redirect_uri.take(cfg.redirect_uri.len() - "/callback"@.len());
    if cfg.redirect_uri == base + "/callback"@ {
        assert(cut == base);
    } else if has_suffix(cfg.redirect_uri, "/callback"@) {
        assert(base == cut + "/callback"@);
    }
}

/// While the provider's record is being got, return and logout do what getting it asks for; and what
/// goes wrong in getting it ends them.
pub proof fn law_record_is_got_on_the_way(
    code: Seq<char>,
    rec: PkceRecordView,
    hint: Option<Seq<char>>,
    meta: MetaStateView,
    ev: EventView,
    cfg: ConfigView,
    now: u64,
    r: StepView,
)
    requires
        callback_goes(CallbackStateView::Meta { code, rec, meta }, ev, cfg, now, r),
    ensures
        ({
            let out = logout_next(LogoutStateView::Meta { hint, meta }, ev, cfg, now);
            match meta_next(meta, ev, cfg, now) {
                MetaNextView::Act(next, act) => {
                    &&& r == StepView::Act(
                        FlowView::Callback(CallbackStateView::Meta { code, rec, meta: next }),
                        act,
                    )
                    &&& out == StepView::Act(
                        FlowView::Logout(LogoutStateView::Meta { hint, meta: next }),
                        act,
                    )
                },
                MetaNextView::Failed(f) => r == StepView::Fail(f) && out == StepView::Fail(f),
                MetaNextView::Ready(m) => {
                    &&& r is Act
                    &&& out == logout_next(
                        LogoutStateView::Meta { hint, meta: MetaStateView::Save { meta: m } },
                        EventView::Done,
                        cfg,
                        now,
                    )
                    &&& callback_goes(
                        CallbackStateView::Meta {
                            code,
                            rec,
                            meta: MetaStateView::Save { meta: m },
                        },
                        EventView::Done,
                        cfg,
                        now,
                        r,
                    )
                },
            }
        }),
{
}

// ---------------------------------------------------------------------------
// The control plane
// ---------------------------------------------------------------------------

/// Text is shown character by character: four of them as entities, every other as it is.
pub proof fn law_escaped(a: Seq<char>, b: Seq<char>, c: char)
    ensures
        escaped(a + b) == escaped(a) + escaped(b),
        escaped(seq!['&']) == "&amp;"@,
        escaped(seq!['<']) == "&lt;"@,
        escaped(seq!['>']) == "&gt;"@,
        escaped(seq!['"']) == "&quot;"@,
        c != '&' && c != '<' && c != '>' && c != '"' ==> escaped(seq![c]) == seq![c],
        escaped(seq![]) == Seq::<char>::empty(),
    decreases b.len(),
{
    lemma_escaped_one('&');
    lemma_escaped_one('<');
    lemma_escaped_one('>');
    lemma_escaped_one('"');
    lemma_escaped_one(c);
    if b.len() == 0 {
        assert(a + b == a);
        assert(escaped(a) + escaped(b) == escaped(a));
    } else {
        law_escaped(a, b.drop_last(), c);
        assert((a + b).drop_last() == a + b.drop_last());
        assert(escaped(a + b) == escaped(a) + escaped(b));
    }
}

proof fn lemma_escaped_one(c: char)
    ensures
        escaped(seq![c]) == crate::landing::entity(c),
{
    assert(seq![c].drop_last() == Seq::<char>::empty());
    assert(escaped(seq![c].drop_last()) == Seq::<char>::empty());
    assert(escaped(seq![c]) == crate::landing::entity(c));
}

/// Groups are listed one by one, in their order; one without a name is passed over.
pub proof fn law_groups_listed(groups: Seq<Seq<char>>, last: Seq<char>)
    ensures
        group_items(seq![]) == Seq::<char>::empty(),
        group_items(groups.push(last)) == if last.len() == 0 {
            group_items(groups)
        } else {
            group_items(groups) + "<li><code>"@ + escaped(last) + "</code></li>"@
        },
{
    assert(groups.push(last).drop_last() == groups);
}

/// The control plane answers with the page if and only if there is a secret and the request has it;
/// the page shows who the headers say it is, an unknown somebody where they do not.
pub proof fn law_landing_answers(expected: Seq<char>, req: LandingRequestView)
    ensures
        landing_view(expected, req) == if expected.len() > 0 && req.secret == Some(expected) {
            ResponseView {
                status: 200,
                headers: seq![
                    ("content-type"@, "text/html; charset=utf-8"@),
                    ("cache-control"@, "no-store"@),
                ],
                body: landing_page(
                    match req.sub {
                        Some(s) => s,
                        None => "unknown"@,
                    },
                    match req.email {
                        Some(s) => s,
                        None => seq![],
                    },
                    match req.groups {
                        Some(s) => s,
                        None => seq![],
                    },
                ),
            }
        } else {
            ResponseView {
                status: 403,
                headers: seq![("content-type"@, "text/plain; charset=utf-8"@)],
                body: "403: control plane is only reachable through the auth component"@,
            }
        },
{
}

/// The page is one and the same for everybody but for the three values, each in its place.
pub proof fn law_page(sub: Seq<char>, email: Seq<char>, groups: Seq<char>)
    ensures
        landing_page(sub, email, groups) == PAGE_HEAD@ + ("<dd><code>"@ + escaped(sub)
            + "</code></dd>"@) + PAGE_EMAIL@ + ("<dd>"@ + escaped(email) + "</dd>"@) + PAGE_GROUPS@ + (
        "<ul>"@ + group_items(split(groups, ',')) + "</ul>"@) + PAGE_TAIL@,
{
}

// ---------------------------------------------------------------------------
// Failures
// ---------------------------------------------------------------------------

/// Does this state wait for the store?
pub open spec fn waits_for_store(flow: FlowView) -> bool {
    match flow {
        FlowView::Login(st) => st is Save,
        FlowView::Callback(st) => st is Take || st is Spend || st is Save,
        FlowView::Logout(st) => st is Lookup || st is Expire || st is Revoke,
        FlowView::Protected(st) => st is Lookup || st is Expire,
    }
}

/// A store that fails ends every flow that waits for it, with what it says; a session that cannot be
/// read does too. So do a provider and a control plane that cannot be reached, and a header and
/// claims that cannot be read.
pub proof fn law_failures_end_a_flow(
    flow: FlowView,
    e: Seq<char>,
    ev: EventView,
    cfg: ConfigView,
    now: u64,
    r: StepView,
)
    requires
        flow_goes(flow, ev, cfg, now, r),
    ensures
        ev == EventView::Failed(e) && waits_for_store(flow) ==> r == StepView::Fail(
            AuthErrorView { kind: ErrorKind::Store, message: e },
        ),
        flow matches FlowView::Logout(st) ==> (st is Lookup && ev == EventView::Session(Some(Err(e)))
            ==> r == StepView::Fail(AuthErrorView { kind: ErrorKind::Json, message: e })),
        flow matches FlowView::Protected(st) ==> (st is Lookup && ev == EventView::Session(
            Some(Err(e)),
        ) ==> r == StepView::Fail(AuthErrorView { kind: ErrorKind::Json, message: e })),
        flow matches FlowView::Callback(st) ==> {
            &&& st is Exchange && ev == EventView::Failed(e) ==> r == StepView::Fail(
                AuthErrorView {
                    kind: ErrorKind::TokenEndpoint,
                    message: "token endpoint: "@ + e,
                },
            )
            &&& st is Header && ev == EventView::Header(Err::<HeaderView, Seq<char>>(e)) ==> r
                == StepView::Fail(AuthErrorView { kind: ErrorKind::Json, message: e })
            &&& st is Claims && ev == EventView::Claims(Err::<ClaimsView, Seq<char>>(e)) ==> r
                == StepView::Fail(AuthErrorView { kind: ErrorKind::Json, message: e })
        },
        flow == FlowView::Protected(ProtectedStateView::Forward) && ev == EventView::Failed(e) ==> r
            == StepView::Fail(
            AuthErrorView { kind: ErrorKind::Forward, message: "forward to CP: "@ + e },
        ),
{
}

} // verus!
