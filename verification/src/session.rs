//! Sessions: an opaque id in a cookie, a record on our side, an expiry of our own.
//!
//! The id is random and says nothing of whom it stands for. To revoke a session is to delete its
//! record.

use crate::action::{Action, ActionView};
use crate::config::{Config, ConfigView};
use crate::error::{fault, AuthError, AuthErrorView, ErrorKind};
use crate::text::{decimal, decimal_text, texts};
use crate::util::{
    b64url, b64url_text, bytes_outcome, clock_reads, entropy_outcome, now_secs, random_bytes,
};
use vstd::prelude::*;

verus! {

/// The name of the session cookie.
pub const COOKIE_NAME: &'static str = "cp_session";

/// Bytes of entropy in a session id.
pub const SESSION_ID_BYTES: usize = 32;

/// What is kept of somebody who has logged in.
#[derive(Debug)]
pub struct Session {
    pub sub: String,
    pub email: String,
    pub groups: Vec<String>,
    pub idp_tenant: String,
    /// When the session ends, in seconds since the Unix epoch. Checked on every request.
    pub exp: u64,
    /// The identity token, kept on our side so that the provider can be told whom to log out.
    pub id_token: String,
}

/// The mathematical model of a [`Session`].
pub struct SessionView {
    pub sub: Seq<char>,
    pub email: Seq<char>,
    pub groups: Seq<Seq<char>>,
    pub idp_tenant: Seq<char>,
    pub exp: u64,
    pub id_token: Seq<char>,
}

impl View for Session {
    type V = SessionView;

    open spec fn view(&self) -> SessionView {
        SessionView {
            sub: self.sub@,
            email: self.email@,
            groups: texts(self.groups@),
            idp_tenant: self.idp_tenant@,
            exp: self.exp,
            id_token: self.id_token@,
        }
    }
}

impl Clone for Session {
    fn clone(&self) -> (r: Session)
        ensures
            r@ == self@,
    {
        let groups = self.groups.clone();
        assert(texts(groups@) == texts(self.groups@));
        Session {
            sub: self.sub.clone(),
            email: self.email.clone(),
            groups,
            idp_tenant: self.idp_tenant.clone(),
            exp: self.exp,
            id_token: self.id_token.clone(),
        }
    }
}

/// The session of somebody who logs in at `now`.
pub open spec fn new_session(
    cfg: ConfigView,
    sub: Seq<char>,
    email: Seq<char>,
    groups: Seq<Seq<char>>,
    id_token: Seq<char>,
    now: u64,
) -> SessionView {
    SessionView {
        sub,
        email,
        groups,
        idp_tenant: cfg.tenant,
        exp: (now + cfg.session_ttl_secs) as u64,
        id_token,
    }
}

/// The refusal where the end of a session would be past the range of the clock.
pub open spec fn lifetime_fault() -> AuthErrorView {
    fault(ErrorKind::TimeRange, "session lifetime is out of range"@)
}

/// The session of somebody who logs in at `now`, under an id with the entropy `id`.
pub fn create_from(
    cfg: &Config,
    sub: String,
    email: String,
    groups: Vec<String>,
    id_token: String,
    id: &[u8],
    now: u64,
) -> (r: (String, Session))
    requires
        id@.len() == SESSION_ID_BYTES,
        now + cfg.session_ttl_secs <= u64::MAX,
    ensures
        r.0@ == b64url_text(id@),
        r.1@ == new_session(cfg@, sub@, email@, texts(groups@), id_token@, now),
{
    let sess = Session {
        sub,
        email,
        groups,
        idp_tenant: cfg.tenant.clone(),
        exp: now + cfg.session_ttl_secs,
        id_token,
    };
    (b64url(id), sess)
}

/// The outcome of creating a session at `now`, given that of asking for the entropy of its id: the
/// refusal of entropy comes first, then that of an end past the range of the clock.
pub open spec fn created_with(
    id: Result<Seq<u8>, AuthErrorView>,
    cfg: ConfigView,
    sub: Seq<char>,
    email: Seq<char>,
    groups: Seq<Seq<char>>,
    id_token: Seq<char>,
    now: u64,
) -> Result<(Seq<char>, SessionView), AuthErrorView> {
    match id {
        Err(e) => Err(e),
        Ok(bytes) => if now + cfg.session_ttl_secs > u64::MAX {
            Err(lifetime_fault())
        } else {
            Ok((b64url_text(bytes), new_session(cfg, sub, email, groups, id_token, now)))
        },
    }
}

/// Is this outcome one of creating a session at `now`, under an id of entropy that was drawn for it?
pub open spec fn created(
    r: Result<(Seq<char>, SessionView), AuthErrorView>,
    cfg: ConfigView,
    sub: Seq<char>,
    email: Seq<char>,
    groups: Seq<Seq<char>>,
    id_token: Seq<char>,
    now: u64,
) -> bool {
    exists|id: Result<Seq<u8>, AuthErrorView>| #[trigger]
        entropy_outcome(SESSION_ID_BYTES, id) && r == created_with(
            id,
            cfg,
            sub,
            email,
            groups,
            id_token,
            now,
        )
}

/// What an outcome of creating a session says.
pub open spec fn create_outcome(r: Result<(String, Session), AuthError>) -> Result<
    (Seq<char>, SessionView),
    AuthErrorView,
> {
    match r {
        Ok((id, sess)) => Ok((id@, sess@)),
        Err(e) => Err(e@),
    }
}

/// The outcome of creating a session at `now`, given that of asking for the entropy of its id.
pub fn create_with(
    id: Result<Vec<u8>, AuthError>,
    cfg: &Config,
    sub: String,
    email: String,
    groups: Vec<String>,
    id_token: String,
    now: u64,
) -> (r: Result<(String, Session), AuthError>)
    requires
        id matches Ok(bytes) ==> bytes@.len() == SESSION_ID_BYTES,
    ensures
        create_outcome(r) == created_with(
            bytes_outcome(id),
            cfg@,
            sub@,
            email@,
            texts(groups@),
            id_token@,
            now,
        ),
{
    match id {
        Err(e) => Err(e),
        Ok(bytes) => {
            if cfg.session_ttl_secs > u64::MAX - now {
                return Err(
                    AuthError::plain(ErrorKind::TimeRange, "session lifetime is out of range"),
                );
            }
            Ok(create_from(cfg, sub, email, groups, id_token, bytes.as_slice(), now))
        },
    }
}

/// Creates a session at `now`. It goes under [`sess_key`] of its id.
pub fn create_at(
    cfg: &Config,
    sub: String,
    email: String,
    groups: Vec<String>,
    id_token: String,
    now: u64,
) -> (r: Result<(String, Session), AuthError>)
    ensures
        created(create_outcome(r), cfg@, sub@, email@, texts(groups@), id_token@, now),
{
    let id = random_bytes(SESSION_ID_BYTES);
    assert(entropy_outcome(SESSION_ID_BYTES, bytes_outcome(id)));
    create_with(id, cfg, sub, email, groups, id_token, now)
}

/// Creates a session. It goes under [`sess_key`] of its id.
pub fn create(
    cfg: &Config,
    sub: String,
    email: String,
    groups: Vec<String>,
    id_token: String,
) -> (r: Result<(String, Session), AuthError>)
    ensures
        exists|now: u64|
            clock_reads(now) && #[trigger] created(
                create_outcome(r),
                cfg@,
                sub@,
                email@,
                texts(groups@),
                id_token@,
                now,
            ),
{
    create_at(cfg, sub, email, groups, id_token, now_secs())
}

/// What looking for a session came to.
#[derive(Debug)]
pub enum Lookup {
    /// There is no record.
    Absent,
    /// The record has run out and is to be deleted.
    Expired,
    Live(Session),
}

/// The mathematical model of a [`Lookup`].
pub enum LookupView {
    Absent,
    Expired,
    Live(SessionView),
}

impl View for Lookup {
    type V = LookupView;

    open spec fn view(&self) -> LookupView {
        match self {
            Lookup::Absent => LookupView::Absent,
            Lookup::Expired => LookupView::Expired,
            Lookup::Live(s) => LookupView::Live(s@),
        }
    }
}

/// What was found of a session.
pub open spec fn found_session(found: Option<Result<Session, String>>) -> Option<
    Result<SessionView, Seq<char>>,
> {
    match found {
        None => None,
        Some(Ok(s)) => Some(Ok(s@)),
        Some(Err(e)) => Some(Err(e@)),
    }
}

/// What was found of a session comes to this at `now`.
pub open spec fn looked_up(found: Option<Result<SessionView, Seq<char>>>, now: u64) -> Result<
    LookupView,
    AuthErrorView,
> {
    match found {
        None => Ok(LookupView::Absent),
        Some(Err(e)) => Err(fault(ErrorKind::Json, e)),
        Some(Ok(s)) => if now >= s.exp {
            Ok(LookupView::Expired)
        } else {
            Ok(LookupView::Live(s))
        },
    }
}

/// What an outcome of looking for a session says.
pub open spec fn lookup_outcome(r: Result<Lookup, AuthError>) -> Result<LookupView, AuthErrorView> {
    match r {
        Ok(l) => Ok(l@),
        Err(e) => Err(e@),
    }
}

/// What was found under the key of a session comes to this at `now`.
pub fn lookup_at(found: Option<Result<Session, String>>, now: u64) -> (r: Result<
    Lookup,
    AuthError,
>)
    ensures
        lookup_outcome(r) == looked_up(found_session(found), now),
{
    match found {
        None => Ok(Lookup::Absent),
        Some(Err(message)) => Err(AuthError { kind: ErrorKind::Json, message }),
        Some(Ok(sess)) => {
            if now >= sess.exp {
                Ok(Lookup::Expired)
            } else {
                Ok(Lookup::Live(sess))
            }
        },
    }
}

/// What was found under the key of a session comes to this now.
pub fn lookup(found: Option<Result<Session, String>>) -> (r: Result<Lookup, AuthError>)
    ensures
        exists|now: u64|
            clock_reads(now) && lookup_outcome(r) == #[trigger] looked_up(found_session(found), now),
{
    lookup_at(found, now_secs())
}

/// The value of a `Set-Cookie` header for a new session.
pub open spec fn cookie_for(id: Seq<char>, ttl_secs: u64) -> Seq<char> {
    COOKIE_NAME@ + "="@ + id + "; HttpOnly; Secure; SameSite=Lax; Path=/; Max-Age="@ + decimal(
        ttl_secs as nat,
    )
}

/// The value of a `Set-Cookie` header for a new session: out of reach of scripts, sent over secure
/// connections alone, not sent along with requests from other sites but for plain navigation.
pub fn set_cookie(id: &str, ttl_secs: u64) -> (r: String)
    ensures
        r@ == cookie_for(id@, ttl_secs),
{
    let mut r = COOKIE_NAME.to_owned();
    r.append("=");
    r.append(id);
    r.append("; HttpOnly; Secure; SameSite=Lax; Path=/; Max-Age=");
    r.append(decimal_text(ttl_secs).as_str());
    r
}

/// The value of a `Set-Cookie` header that removes the session cookie.
pub open spec fn cleared_cookie() -> Seq<char> {
    COOKIE_NAME@ + "=; HttpOnly; Secure; SameSite=Lax; Path=/; Max-Age=0"@
}

/// The value of a `Set-Cookie` header that removes the session cookie.
pub fn clear_cookie() -> (r: String)
    ensures
        r@ == cleared_cookie(),
{
    let mut r = COOKIE_NAME.to_owned();
    r.append("=; HttpOnly; Secure; SameSite=Lax; Path=/; Max-Age=0");
    r
}

/// The key under which a session is kept.
pub open spec fn sess_key_text(id: Seq<char>) -> Seq<char> {
    "sess:"@ + id
}

/// The key under which a session is kept.
pub fn sess_key(id: &str) -> (r: String)
    ensures
        r@ == sess_key_text(id@),
{
    let mut r = "sess:".to_owned();
    r.append(id);
    r
}

/// Ends a session: its record is to be deleted.
pub fn revoke(id: &str) -> (r: Action)
    ensures
        r@ == (ActionView::Delete { key: sess_key_text(id@) }),
{
    Action::Delete { key: sess_key(id) }
}

} // verus!
