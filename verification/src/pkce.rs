//! What ties a login to the browser's return: verifier, state and nonce.
//!
//! The record under `pkce:{state}` is used once: it is deleted the moment it has been read.

use crate::crypto::{sha256, sha256_digest};
use crate::error::{fault, AuthError, AuthErrorView, ErrorKind};
use crate::jwks::elapsed;
use crate::util::{b64url, b64url_text, clock_reads, entropy_outcome, now_secs, random_bytes};
use vstd::prelude::*;
use vstd::utf8::encode_utf8;

verus! {

/// How long a login may take: long enough for a human, short enough to bound replay.
pub const PKCE_TTL_SECS: u64 = 300;

/// Bytes of entropy in a verifier. They make 43 characters, the least that is allowed.
pub const VERIFIER_BYTES: usize = 32;

/// Bytes of entropy in a state and in a nonce.
pub const STATE_BYTES: usize = 24;

/// What is kept of a pending login.
#[derive(Debug)]
pub struct PkceRecord {
    pub verifier: String,
    pub nonce: String,
    pub return_to: String,
    pub created: u64,
}

/// The mathematical model of a [`PkceRecord`].
pub struct PkceRecordView {
    pub verifier: Seq<char>,
    pub nonce: Seq<char>,
    pub return_to: Seq<char>,
    pub created: u64,
}

impl View for PkceRecord {
    type V = PkceRecordView;

    open spec fn view(&self) -> PkceRecordView {
        PkceRecordView {
            verifier: self.verifier@,
            nonce: self.nonce@,
            return_to: self.return_to@,
            created: self.created,
        }
    }
}

/// What the provider is told of a pending login.
#[derive(Debug)]
pub struct PkceStart {
    pub state: String,
    pub nonce: String,
    pub code_challenge: String,
}

/// The mathematical model of a [`PkceStart`].
pub struct PkceStartView {
    pub state: Seq<char>,
    pub nonce: Seq<char>,
    pub code_challenge: Seq<char>,
}

impl View for PkceStart {
    type V = PkceStartView;

    open spec fn view(&self) -> PkceStartView {
        PkceStartView {
            state: self.state@,
            nonce: self.nonce@,
            code_challenge: self.code_challenge@,
        }
    }
}

/// The challenge for a verifier: its SHA-256 digest in base64url.
pub open spec fn challenge(verifier: Seq<char>) -> Seq<char> {
    b64url_text(sha256(encode_utf8(verifier)))
}

/// The challenge for a verifier. Only the challenge goes to the provider.
pub fn challenge_s256(verifier: &str) -> (r: String)
    ensures
        r@ == challenge(verifier@),
{
    let digest = sha256_digest(verifier.as_bytes());
    b64url(digest.as_slice())
}

/// The entropy that a login takes.
pub struct PkceDraw {
    pub verifier: Seq<u8>,
    pub state: Seq<u8>,
    pub nonce: Seq<u8>,
}

/// Is there as much entropy as a login takes, and was it drawn?
pub open spec fn draw_wf(draw: PkceDraw) -> bool {
    &&& entropy_outcome(VERIFIER_BYTES, Ok(draw.verifier))
    &&& entropy_outcome(STATE_BYTES, Ok(draw.state))
    &&& entropy_outcome(STATE_BYTES, Ok(draw.nonce))
}

/// What the provider is told of a login with the entropy `draw`.
pub open spec fn start_of(draw: PkceDraw) -> PkceStartView {
    PkceStartView {
        state: b64url_text(draw.state),
        nonce: b64url_text(draw.nonce),
        code_challenge: challenge(b64url_text(draw.verifier)),
    }
}

/// What is kept of a login with the entropy `draw`, begun at `now`.
pub open spec fn record_of(draw: PkceDraw, return_to: Seq<char>, now: u64) -> PkceRecordView {
    PkceRecordView {
        verifier: b64url_text(draw.verifier),
        nonce: b64url_text(draw.nonce),
        return_to,
        created: now,
    }
}

/// A login with the given entropy, begun at `now`.
pub fn begin_from(verifier: &[u8], state: &[u8], nonce: &[u8], return_to: &str, now: u64) -> (r: (
    PkceStart,
    PkceRecord,
))
    requires
        verifier@.len() == VERIFIER_BYTES,
        state@.len() == STATE_BYTES,
        nonce@.len() == STATE_BYTES,
    ensures
        r.0@ == start_of(PkceDraw { verifier: verifier@, state: state@, nonce: nonce@ }),
        r.1@ == record_of(
            (PkceDraw { verifier: verifier@, state: state@, nonce: nonce@ }),
            return_to@,
            now,
        ),
{
    let verifier = b64url(verifier);
    let state = b64url(state);
    let nonce = b64url(nonce);
    let code_challenge = challenge_s256(verifier.as_str());
    let rec = PkceRecord {
        verifier,
        nonce: nonce.clone(),
        return_to: return_to.to_owned(),
        created: now,
    };
    (PkceStart { state, nonce, code_challenge }, rec)
}

/// Is this outcome one of beginning a login at `now`: entropy was drawn and used, or none was to be
/// had?
pub open spec fn begun(
    r: Result<(PkceStartView, PkceRecordView), AuthErrorView>,
    return_to: Seq<char>,
    now: u64,
) -> bool {
    match r {
        Ok((start, rec)) => exists|draw: PkceDraw| #[trigger]
            draw_wf(draw) && start == start_of(draw) && rec == record_of(draw, return_to, now),
        Err(e) => entropy_outcome(VERIFIER_BYTES, Err(e)) || entropy_outcome(STATE_BYTES, Err(e)),
    }
}

/// What an outcome of beginning a login says.
pub open spec fn begin_outcome(r: Result<(PkceStart, PkceRecord), AuthError>) -> Result<
    (PkceStartView, PkceRecordView),
    AuthErrorView,
> {
    match r {
        Ok((start, rec)) => Ok((start@, rec@)),
        Err(e) => Err(e@),
    }
}

/// Begins a login at `now`. What is to be kept goes under [`pkce_key`] of the state.
pub fn begin_at(return_to: &str, now: u64) -> (r: Result<(PkceStart, PkceRecord), AuthError>)
    ensures
        begun(begin_outcome(r), return_to@, now),
{
    let verifier = random_bytes(VERIFIER_BYTES)?;
    let state = random_bytes(STATE_BYTES)?;
    let nonce = random_bytes(STATE_BYTES)?;
    let r = begin_from(verifier.as_slice(), state.as_slice(), nonce.as_slice(), return_to, now);
    assert(draw_wf(PkceDraw { verifier: verifier@, state: state@, nonce: nonce@ }));
    Ok(r)
}

/// Begins a login. What is to be kept goes under [`pkce_key`] of the state.
pub fn begin(return_to: &str) -> (r: Result<(PkceStart, PkceRecord), AuthError>)
    ensures
        exists|now: u64| clock_reads(now) && #[trigger] begun(begin_outcome(r), return_to@, now),
{
    begin_at(return_to, now_secs())
}

/// What an outcome of reading a record says.
pub open spec fn record_outcome(r: Result<PkceRecord, String>) -> Result<
    PkceRecordView,
    Seq<char>,
> {
    match r {
        Ok(rec) => Ok(rec@),
        Err(e) => Err(e@),
    }
}

/// What is wrong with what was found of a pending login at `now`, where something is.
pub open spec fn pending_fault(
    found: Option<Result<PkceRecordView, Seq<char>>>,
    now: u64,
) -> Option<AuthErrorView> {
    match found {
        None => Some(fault(ErrorKind::UnknownState, "unknown or expired state"@)),
        Some(Err(e)) => Some(fault(ErrorKind::Json, e)),
        Some(Ok(rec)) => if elapsed(now, rec.created) > PKCE_TTL_SECS {
            Some(fault(ErrorKind::StateExpired, "state expired"@))
        } else {
            None
        },
    }
}

/// What was found of a pending login.
pub open spec fn found_view(found: Option<Result<PkceRecord, String>>) -> Option<
    Result<PkceRecordView, Seq<char>>,
> {
    match found {
        None => None,
        Some(r) => Some(record_outcome(r)),
    }
}

/// Takes up a pending login at `now`, given what was found under its key.
pub fn take_at(found: Option<Result<PkceRecord, String>>, now: u64) -> (r: Result<
    PkceRecord,
    AuthError,
>)
    ensures
        match pending_fault(found_view(found), now) {
            None => r is Ok && r->Ok_0 == found->Some_0->Ok_0,
            Some(f) => r is Err && r->Err_0@ == f,
        },
{
    match found {
        None => Err(AuthError::plain(ErrorKind::UnknownState, "unknown or expired state")),
        Some(Err(message)) => Err(AuthError { kind: ErrorKind::Json, message }),
        Some(Ok(rec)) => {
            if now.saturating_sub(rec.created) > PKCE_TTL_SECS {
                Err(AuthError::plain(ErrorKind::StateExpired, "state expired"))
            } else {
                Ok(rec)
            }
        },
    }
}

/// Takes up a pending login, given what was found under its key.
pub fn take(found: Option<Result<PkceRecord, String>>) -> (r: Result<PkceRecord, AuthError>)
    ensures
        exists|now: u64|
            clock_reads(now) && match #[trigger] pending_fault(found_view(found), now) {
                None => r is Ok && r->Ok_0 == found->Some_0->Ok_0,
                Some(f) => r is Err && r->Err_0@ == f,
            },
{
    take_at(found, now_secs())
}

/// The key under which a pending login is kept.
pub open spec fn pkce_key_text(state: Seq<char>) -> Seq<char> {
    "pkce:"@ + state
}

/// The key under which a pending login is kept.
pub fn pkce_key(state: &str) -> (r: String)
    ensures
        r@ == pkce_key_text(state@),
{
    let mut r = "pkce:".to_owned();
    r.append(state);
    r
}

} // verus!
