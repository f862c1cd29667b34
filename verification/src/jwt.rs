//! Validation of an identity token: done once, when the browser comes back from the provider.
//!
//! Signature and claims say who somebody is. Whether they may pass is another matter, which the
//! group check settles on every request.

use crate::config::{Config, ConfigView};
use crate::crypto::{
    ec_key_check, ec_key_complaint, es256_check, es256_complaint, es256_form_check,
    es256_form_complaint, rs256_check, rs256_complaint, rsa_key_check, rsa_key_complaint, sha256,
    sha256_digest,
};
use crate::error::{fault, AuthError, AuthErrorView, ErrorKind};
use crate::jwks::{Jwk, JwkView};
use crate::text::{same_text, split, split_text, text_opt, texts};
use crate::util::{b64url_decode, b64url_decoded, bytes_outcome, clock_reads, now_secs};
use vstd::prelude::*;
use vstd::utf8::encode_utf8;

verus! {

/// By how many seconds the clocks of the provider and ours may differ.
pub const CLOCK_SKEW_SECS: u64 = 60;

/// The header of an identity token, as far as it is read.
#[derive(Debug)]
pub struct Header {
    pub alg: String,
    pub kid: Option<String>,
}

/// The mathematical model of a [`Header`].
pub struct HeaderView {
    pub alg: Seq<char>,
    pub kid: Option<Seq<char>>,
}

impl View for Header {
    type V = HeaderView;

    open spec fn view(&self) -> HeaderView {
        HeaderView { alg: self.alg@, kid: text_opt(self.kid) }
    }
}

/// Whom a token is meant for: one, several, or nobody in particular.
#[derive(Debug)]
pub enum Audience {
    One(String),
    Many(Vec<String>),
    Nobody,
}

/// The mathematical model of an [`Audience`].
pub enum AudienceView {
    One(Seq<char>),
    Many(Seq<Seq<char>>),
    Nobody,
}

impl View for Audience {
    type V = AudienceView;

    open spec fn view(&self) -> AudienceView {
        match self {
            Audience::One(a) => AudienceView::One(a@),
            Audience::Many(xs) => AudienceView::Many(texts(xs@)),
            Audience::Nobody => AudienceView::Nobody,
        }
    }
}

impl Default for Audience {
    fn default() -> (r: Audience)
        ensures
            r is Nobody,
    {
        Audience::Nobody
    }
}

/// The claims of an identity token, as far as they are read.
#[derive(Debug)]
pub struct Claims {
    pub sub: String,
    pub email: String,
    pub aud: Audience,
    pub iss: String,
    pub exp: u64,
    pub nonce: Option<String>,
    pub groups: Vec<String>,
}

/// The mathematical model of [`Claims`].
pub struct ClaimsView {
    pub sub: Seq<char>,
    pub email: Seq<char>,
    pub aud: AudienceView,
    pub iss: Seq<char>,
    pub exp: u64,
    pub nonce: Option<Seq<char>>,
    pub groups: Seq<Seq<char>>,
}

impl View for Claims {
    type V = ClaimsView;

    open spec fn view(&self) -> ClaimsView {
        ClaimsView {
            sub: self.sub@,
            email: self.email@,
            aud: self.aud@,
            iss: self.iss@,
            exp: self.exp,
            nonce: text_opt(self.nonce),
            groups: texts(self.groups@),
        }
    }
}

/// Is `v` among those a token is meant for?
pub open spec fn meant_for(aud: AudienceView, v: Seq<char>) -> bool {
    match aud {
        AudienceView::One(a) => a == v,
        AudienceView::Many(xs) => xs.contains(v),
        AudienceView::Nobody => false,
    }
}

/// Is `v` one of `items`?
pub fn listed(items: &Vec<String>, v: &str) -> (r: bool)
    ensures
        r == texts(items@).contains(v@),
{
    let mut i: usize = 0;
    while i < items.len()
        invariant
            i <= items@.len(),
            forall|j: int| 0 <= j < i ==> #[trigger] texts(items@)[j] != v@,
        decreases items@.len() - i,
    {
        if same_text(items[i].as_str(), v) {
            assert(texts(items@)[i as int] == v@);
            return true;
        }
        i = i + 1;
    }
    false
}

impl Audience {
    /// Is `v` among those the token is meant for?
    pub fn contains(&self, v: &str) -> (r: bool)
        ensures
            r == meant_for(self@, v@),
    {
        match self {
            Audience::One(a) => same_text(a.as_str(), v),
            Audience::Many(xs) => listed(xs, v),
            Audience::Nobody => false,
        }
    }
}

/// What an outcome without a value says.
pub open spec fn unit_outcome(r: Result<(), AuthError>) -> Result<(), AuthErrorView> {
    match r {
        Ok(_) => Ok(()),
        Err(e) => Err(e@),
    }
}

/// What an outcome of reading a header says.
pub open spec fn header_outcome(r: Result<Header, String>) -> Result<HeaderView, Seq<char>> {
    match r {
        Ok(h) => Ok(h@),
        Err(e) => Err(e@),
    }
}

/// What an outcome of reading claims says.
pub open spec fn claims_outcome(r: Result<Claims, String>) -> Result<ClaimsView, Seq<char>> {
    match r {
        Ok(c) => Ok(c@),
        Err(e) => Err(e@),
    }
}

/// The JSON text of a token's header: its first part, decoded. Nothing is verified yet.
pub fn header_bytes(id_token: &str) -> (r: Result<Vec<u8>, AuthError>)
    ensures
        bytes_outcome(r) == b64url_decoded(split(id_token@, '.')[0]),
{
    let parts = split_text(id_token, '.');
    assert(texts(parts@)[0] == parts@[0]@);
    b64url_decode(parts[0].as_str())
}

/// Which key a token names, given what its header was read as: the key id, or the refusal where
/// the header is not base64url or not a header.
pub open spec fn named_kid(id_token: Seq<char>, header: Result<HeaderView, Seq<char>>) -> Result<
    Option<Seq<char>>,
    AuthErrorView,
> {
    match b64url_decoded(split(id_token, '.')[0]) {
        Err(f) => Err(f),
        Ok(_) => match header {
            Err(e) => Err(fault(ErrorKind::Json, e)),
            Ok(h) => Ok(h.kid),
        },
    }
}

/// The key that a token asks to be verified with. `header` is what its [`header_bytes`] were read
/// as.
pub fn header_kid(id_token: &str, header: &Result<Header, String>) -> (r: Result<
    Option<String>,
    AuthError,
>)
    ensures
        r matches Ok(kid) ==> named_kid(id_token@, header_outcome(*header)) == Ok::<
            Option<Seq<char>>,
            AuthErrorView,
        >(text_opt(kid)),
        r matches Err(e) ==> named_kid(id_token@, header_outcome(*header)) == Err::<
            Option<Seq<char>>,
            AuthErrorView,
        >(e@),
{
    match header_bytes(id_token) {
        Err(e) => Err(e),
        Ok(_) => match header {
            Err(e) => Err(AuthError { kind: ErrorKind::Json, message: e.clone() }),
            Ok(h) => Ok(h.kid.clone()),
        },
    }
}

/// The outcome of an RS256 check of `sig` over `input`.
pub open spec fn rs256_outcome(input: Seq<char>, sig: Seq<u8>, jwk: JwkView) -> Result<
    (),
    AuthErrorView,
> {
    if jwk.kty != "RSA"@ {
        Err(fault(ErrorKind::KeyType, "RS256 token but JWK kty="@ + jwk.kty))
    } else if jwk.n is None {
        Err(fault(ErrorKind::KeyComponent, "JWK missing n"@))
    } else if jwk.e is None {
        Err(fault(ErrorKind::KeyComponent, "JWK missing e"@))
    } else {
        match (b64url_decoded(jwk.n->Some_0), b64url_decoded(jwk.e->Some_0)) {
            (Err(f), _) => Err(f),
            (_, Err(f)) => Err(f),
            (Ok(n), Ok(e)) => match (
                rsa_key_complaint(n, e),
                rs256_complaint(n, e, sha256(encode_utf8(input)), sig),
            ) {
                (Some(d), _) => Err(fault(ErrorKind::BadKey, "bad RSA key: "@ + d)),
                (None, Some(d)) => Err(
                    fault(ErrorKind::SignatureInvalid, "RS256 signature invalid: "@ + d),
                ),
                (None, None) => Ok(()),
            },
        }
    }
}

/// The uncompressed form of a point: four, then both coordinates.
pub open spec fn sec1_point(x: Seq<u8>, y: Seq<u8>) -> Seq<u8> {
    seq![4u8] + x + y
}

/// The outcome of an ES256 check of `sig` over `message` with the key that `point` is.
pub open spec fn es256_verdict(point: Seq<u8>, message: Seq<u8>, sig: Seq<u8>) -> Result<
    (),
    AuthErrorView,
> {
    match (
        ec_key_complaint(point),
        es256_form_complaint(sig),
        es256_complaint(point, message, sig),
    ) {
        (Some(d), _, _) => Err(fault(ErrorKind::BadKey, "bad EC key: "@ + d)),
        (None, Some(d), _) => Err(fault(ErrorKind::BadSignature, "bad ES256 sig: "@ + d)),
        (None, None, Some(d)) => Err(
            fault(ErrorKind::SignatureInvalid, "ES256 signature invalid: "@ + d),
        ),
        (None, None, None) => Ok(()),
    }
}

/// The outcome of an ES256 check of `sig` over `input`.
pub open spec fn es256_outcome(input: Seq<char>, sig: Seq<u8>, jwk: JwkView) -> Result<
    (),
    AuthErrorView,
> {
    if jwk.kty != "EC"@ {
        Err(fault(ErrorKind::KeyType, "ES256 token but JWK kty="@ + jwk.kty))
    } else if jwk.x is None {
        Err(fault(ErrorKind::KeyComponent, "JWK missing x"@))
    } else {
        match b64url_decoded(jwk.x->Some_0) {
            Err(f) => Err(f),
            Ok(x) => if jwk.y is None {
                Err(fault(ErrorKind::KeyComponent, "JWK missing y"@))
            } else {
                match b64url_decoded(jwk.y->Some_0) {
                    Err(f) => Err(f),
                    Ok(y) => if x.len() != 32 || y.len() != 32 {
                        Err(
                            fault(
                                ErrorKind::BadKey,
                                "ES256 JWK coordinates must be 32 bytes (P-256)"@,
                            ),
                        )
                    } else {
                        es256_verdict(sec1_point(x, y), encode_utf8(input), sig)
                    },
                }
            },
        }
    }
}

/// The outcome of checking the signature `sig` over `input` under the algorithm `alg`.
pub open spec fn signature_outcome(
    alg: Seq<char>,
    input: Seq<char>,
    sig: Seq<u8>,
    jwk: JwkView,
) -> Result<(), AuthErrorView> {
    if alg == "RS256"@ {
        rs256_outcome(input, sig, jwk)
    } else if alg == "ES256"@ {
        es256_outcome(input, sig, jwk)
    } else {
        Err(fault(ErrorKind::Algorithm, "unsupported id_token alg: "@ + alg))
    }
}

/// Checks an RS256 signature: the key has to be an RSA key with a modulus and an exponent.
pub fn verify_rs256(signing_input: &str, sig: &[u8], jwk: &Jwk) -> (r: Result<(), AuthError>)
    ensures
        unit_outcome(r) == rs256_outcome(signing_input@, sig@, jwk@),
{
    if !same_text(jwk.kty.as_str(), "RSA") {
        return Err(
            AuthError::with_detail(
                ErrorKind::KeyType,
                "RS256 token but JWK kty=",
                jwk.kty.as_str(),
            ),
        );
    }
    let n = match &jwk.n {
        Some(n) => n,
        None => return Err(AuthError::plain(ErrorKind::KeyComponent, "JWK missing n")),
    };
    let e = match &jwk.e {
        Some(e) => e,
        None => return Err(AuthError::plain(ErrorKind::KeyComponent, "JWK missing e")),
    };
    let n = b64url_decode(n.as_str())?;
    let e = b64url_decode(e.as_str())?;
    if let Err(d) = rsa_key_check(n.as_slice(), e.as_slice()) {
        return Err(AuthError::with_detail(ErrorKind::BadKey, "bad RSA key: ", d.as_str()));
    }
    let digest = sha256_digest(signing_input.as_bytes());
    match rs256_check(n.as_slice(), e.as_slice(), digest.as_slice(), sig) {
        Ok(()) => Ok(()),
        Err(d) => Err(
            AuthError::with_detail(
                ErrorKind::SignatureInvalid,
                "RS256 signature invalid: ",
                d.as_str(),
            ),
        ),
    }
}

/// Checks an ES256 signature: the key has to be a point of P-256 with both coordinates.
pub fn verify_es256(signing_input: &str, sig: &[u8], jwk: &Jwk) -> (r: Result<(), AuthError>)
    ensures
        unit_outcome(r) == es256_outcome(signing_input@, sig@, jwk@),
{
    if !same_text(jwk.kty.as_str(), "EC") {
        return Err(
            AuthError::with_detail(
                ErrorKind::KeyType,
                "ES256 token but JWK kty=",
                jwk.kty.as_str(),
            ),
        );
    }
    let x = match &jwk.x {
        Some(x) => x,
        None => return Err(AuthError::plain(ErrorKind::KeyComponent, "JWK missing x")),
    };
    let mut x = b64url_decode(x.as_str())?;
    let y = match &jwk.y {
        Some(y) => y,
        None => return Err(AuthError::plain(ErrorKind::KeyComponent, "JWK missing y")),
    };
    let mut y = b64url_decode(y.as_str())?;
    if x.len() != 32 || y.len() != 32 {
        return Err(
            AuthError::plain(
                ErrorKind::BadKey,
                "ES256 JWK coordinates must be 32 bytes (P-256)",
            ),
        );
    }
    let ghost (xs, ys) = (x@, y@);
    let mut point: Vec<u8> = Vec::new();
    point.push(4u8);
    point.append(&mut x);
    point.append(&mut y);
    assert(point@ == sec1_point(xs, ys));
    if let Err(d) = ec_key_check(point.as_slice()) {
        return Err(AuthError::with_detail(ErrorKind::BadKey, "bad EC key: ", d.as_str()));
    }
    if let Err(d) = es256_form_check(sig) {
        return Err(AuthError::with_detail(ErrorKind::BadSignature, "bad ES256 sig: ", d.as_str()));
    }
    match es256_check(point.as_slice(), signing_input.as_bytes(), sig) {
        Ok(()) => Ok(()),
        Err(d) => Err(
            AuthError::with_detail(
                ErrorKind::SignatureInvalid,
                "ES256 signature invalid: ",
                d.as_str(),
            ),
        ),
    }
}

/// Checks a signature under the algorithm that the token's header names.
pub fn verify_signature(alg: &str, signing_input: &str, sig: &[u8], jwk: &Jwk) -> (r: Result<
    (),
    AuthError,
>)
    ensures
        unit_outcome(r) == signature_outcome(alg@, signing_input@, sig@, jwk@),
{
    if same_text(alg, "RS256") {
        verify_rs256(signing_input, sig, jwk)
    } else if same_text(alg, "ES256") {
        verify_es256(signing_input, sig, jwk)
    } else {
        Err(AuthError::with_detail(ErrorKind::Algorithm, "unsupported id_token alg: ", alg))
    }
}

/// The payload of a token whose signature holds, given what its header was read as.
pub open spec fn token_payload(
    id_token: Seq<char>,
    header: Result<HeaderView, Seq<char>>,
    jwk: JwkView,
) -> Result<Seq<u8>, AuthErrorView> {
    let parts = split(id_token, '.');
    if parts.len() != 3 {
        Err(fault(ErrorKind::Malformed, "id_token is not a 3-part JWT"@))
    } else {
        match (b64url_decoded(parts[0]), header, b64url_decoded(parts[2])) {
            (Err(f), _, _) => Err(f),
            (_, Err(e), _) => Err(fault(ErrorKind::Json, e)),
            (_, _, Err(f)) => Err(f),
            (Ok(_), Ok(h), Ok(sig)) => match signature_outcome(
                h.alg,
                parts[0] + "."@ + parts[1],
                sig,
                jwk,
            ) {
                Err(f) => Err(f),
                Ok(_) => b64url_decoded(parts[1]),
            },
        }
    }
}

/// Checks the form and the signature of a token, and gives its payload where they hold. `header` is
/// what its [`header_bytes`] were read as.
pub fn verify_token(id_token: &str, header: &Header, jwk: &Jwk) -> (r: Result<Vec<u8>, AuthError>)
    ensures
        bytes_outcome(r) == token_payload(id_token@, Ok(header@), jwk@),
{
    let parts = split_text(id_token, '.');
    if parts.len() != 3 {
        return Err(AuthError::plain(ErrorKind::Malformed, "id_token is not a 3-part JWT"));
    }
    assert(texts(parts@)[0] == parts@[0]@);
    assert(texts(parts@)[1] == parts@[1]@);
    assert(texts(parts@)[2] == parts@[2]@);
    let _ = b64url_decode(parts[0].as_str())?;
    let sig = b64url_decode(parts[2].as_str())?;
    let mut signing_input = parts[0].clone();
    signing_input.append(".");
    signing_input.append(parts[1].as_str());
    verify_signature(header.alg.as_str(), signing_input.as_str(), sig.as_slice(), jwk)?;
    b64url_decode(parts[1].as_str())
}

/// The refusal of a token whose header could not be read, for the reason `why`: a token that has
/// another form altogether is refused for that.
fn unread_header(id_token: &str, why: &str) -> (r: AuthError)
    ensures
        forall|jwk: JwkView| #[trigger]
            token_payload(id_token@, Err(why@), jwk) == Err::<Seq<u8>, AuthErrorView>(r@),
{
    let parts = split_text(id_token, '.');
    if parts.len() != 3 {
        return AuthError::plain(ErrorKind::Malformed, "id_token is not a 3-part JWT");
    }
    assert(texts(parts@)[0] == parts@[0]@);
    match b64url_decode(parts[0].as_str()) {
        Err(e) => e,
        Ok(_) => AuthError { kind: ErrorKind::Json, message: why.to_owned() },
    }
}

/// The audience that a token has to be meant for: the configured one, or else the client.
pub open spec fn expected_audience(cfg: ConfigView) -> Seq<char> {
    if cfg.audience.len() == 0 {
        cfg.client_id
    } else {
        cfg.audience
    }
}

/// The audience that a token has to be meant for: the configured one, or else the client.
fn audience_of(cfg: &Config) -> (r: &str)
    ensures
        r@ == expected_audience(cfg@),
{
    if cfg.audience.as_str().is_empty() {
        cfg.client_id.as_str()
    } else {
        cfg.audience.as_str()
    }
}

/// What is wrong with the claims of a token at `now`, where something is.
pub open spec fn claims_fault(
    claims: ClaimsView,
    cfg: ConfigView,
    expected_nonce: Seq<char>,
    now: u64,
) -> Option<AuthErrorView> {
    if claims.iss != cfg.issuer {
        Some(
            fault(
                ErrorKind::Issuer,
                "issuer mismatch: token="@ + claims.iss + " expected="@ + cfg.issuer,
            ),
        )
    } else if !meant_for(claims.aud, expected_audience(cfg)) {
        Some(fault(ErrorKind::Audience, "audience does not contain "@ + expected_audience(cfg)))
    } else if claims.exp + CLOCK_SKEW_SECS < now {
        Some(fault(ErrorKind::Expired, "id_token expired"@))
    } else if claims.nonce != Some(expected_nonce) {
        Some(fault(ErrorKind::Nonce, "nonce mismatch (possible replay)"@))
    } else {
        None
    }
}

/// Are the claims handed on as they are where there is no fault, and the fault reported where there
/// is one?
pub open spec fn accepted_unless(
    fault: Option<AuthErrorView>,
    claims: Claims,
    r: Result<Claims, AuthError>,
) -> bool {
    match fault {
        None => r is Ok && r->Ok_0 == claims,
        Some(f) => r is Err && r->Err_0@ == f,
    }
}

/// Checks issuer, audience, expiry and nonce of a token at `now`.
pub fn check_claims_at(claims: Claims, cfg: &Config, expected_nonce: &str, now: u64) -> (r: Result<
    Claims,
    AuthError,
>)
    ensures
        accepted_unless(claims_fault(claims@, cfg@, expected_nonce@, now), claims, r),
{
    if claims.iss != cfg.issuer {
        let mut message = "issuer mismatch: token=".to_owned();
        message.append(claims.iss.as_str());
        message.append(" expected=");
        message.append(cfg.issuer.as_str());
        return Err(AuthError { kind: ErrorKind::Issuer, message });
    }
    let expected_aud = audience_of(cfg);
    if !claims.aud.contains(expected_aud) {
        return Err(
            AuthError::with_detail(
                ErrorKind::Audience,
                "audience does not contain ",
                expected_aud,
            ),
        );
    }
    if claims.exp < now.saturating_sub(CLOCK_SKEW_SECS) {
        return Err(AuthError::plain(ErrorKind::Expired, "id_token expired"));
    }
    let nonce_matches = match &claims.nonce {
        Some(n) => same_text(n.as_str(), expected_nonce),
        None => false,
    };
    if !nonce_matches {
        return Err(AuthError::plain(ErrorKind::Nonce, "nonce mismatch (possible replay)"));
    }
    Ok(claims)
}

/// What is wrong with a token at `now`, given what its header and its payload were read as: the
/// signature comes first, then the claims.
pub open spec fn token_fault(
    id_token: Seq<char>,
    header: Result<HeaderView, Seq<char>>,
    claims: Result<ClaimsView, Seq<char>>,
    jwk: JwkView,
    cfg: ConfigView,
    expected_nonce: Seq<char>,
    now: u64,
) -> Option<AuthErrorView> {
    match token_payload(id_token, header, jwk) {
        Err(f) => Some(f),
        Ok(_) => match claims {
            Err(e) => Some(fault(ErrorKind::Json, e)),
            Ok(c) => claims_fault(c, cfg, expected_nonce, now),
        },
    }
}

/// Validates an identity token at `now`: its signature against `jwk`, then `iss`, `aud`, `exp` and
/// `nonce`. `header` and `claims` are what its header and its payload were read as.
pub fn validate_at(
    id_token: &str,
    header: &Result<Header, String>,
    claims: Result<Claims, String>,
    jwk: &Jwk,
    cfg: &Config,
    expected_nonce: &str,
    now: u64,
) -> (r: Result<Claims, AuthError>)
    ensures
        accepted_unless(
            token_fault(
                id_token@,
                header_outcome(*header),
                claims_outcome(claims),
                jwk@,
                cfg@,
                expected_nonce@,
                now,
            ),
            claims->Ok_0,
            r,
        ),
{
    match header {
        Ok(h) => {
            let _ = verify_token(id_token, h, jwk)?;
        },
        Err(why) => {
            let e = unread_header(id_token, why.as_str());
            assert(token_payload(id_token@, Err(why@), jwk@) is Err);
            return Err(e);
        },
    }
    match claims {
        Ok(c) => check_claims_at(c, cfg, expected_nonce, now),
        Err(message) => Err(AuthError { kind: ErrorKind::Json, message }),
    }
}

/// Validates an identity token now.
pub fn validate(
    id_token: &str,
    header: &Result<Header, String>,
    claims: Result<Claims, String>,
    jwk: &Jwk,
    cfg: &Config,
    expected_nonce: &str,
) -> (r: Result<Claims, AuthError>)
    ensures
        exists|now: u64|
            clock_reads(now) && accepted_unless(
                #[trigger] token_fault(
                    id_token@,
                    header_outcome(*header),
                    claims_outcome(claims),
                    jwk@,
                    cfg@,
                    expected_nonce@,
                    now,
                ),
                claims->Ok_0,
                r,
            ),
{
    validate_at(id_token, header, claims, jwk, cfg, expected_nonce, now_secs())
}

} // verus!
