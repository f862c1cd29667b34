//! What the flow asks of its surroundings, and what it hears back.
//!
//! The flow itself touches neither store nor network. It names one action at a time; whoever runs
//! it performs the action and hands back the outcome.

use crate::error::{fault, AuthErrorView, AuthError, ErrorKind};
use crate::http::{OutRequest, OutRequestView};
use crate::jwks::{key_views, Jwk, JwkView, TenantMeta, TenantMetaView};
use crate::jwt::{claims_outcome, header_outcome, Claims, ClaimsView, Header, HeaderView};
use crate::pkce::{found_view, PkceRecord, PkceRecordView};
use crate::session::{found_session, Session, SessionView};
use crate::text::text_opt;
use vstd::prelude::*;

verus! {

/// Something to be done outside.
#[allow(inconsistent_fields)]
#[derive(Debug)]
pub enum Action {
    /// Read a tenant's record from the store.
    ReadMeta { key: String },
    /// Read a pending login from the store.
    ReadPkce { key: String },
    /// Read a session from the store.
    ReadSession { key: String },
    WriteMeta { key: String, record: TenantMeta },
    WritePkce { key: String, record: PkceRecord },
    WriteSession { key: String, record: Session },
    /// Delete what is under `key` in the store, if anything is.
    Delete { key: String },
    /// Send a request and hand back the reply.
    Send(OutRequest),
    /// Read the `keys` of a JSON document as keys.
    DecodeKeys { document: Vec<u8> },
    /// Read a JSON text as the header of a token.
    DecodeHeader { json: Vec<u8> },
    /// Read a JSON text as the claims of a token.
    DecodeClaims { json: Vec<u8> },
    /// Send a request; its reply, as it is, is the response.
    Forward(OutRequest),
}

/// The outcome of an action.
#[derive(Debug)]
pub enum Event {
    /// The action could not be performed; the text says why.
    Failed(String),
    /// The store has written or deleted.
    Done,
    /// The record, where there is one that can be read.
    Meta(Option<TenantMeta>),
    /// The pending login, where there is one; or why it cannot be read.
    Pkce(Option<Result<PkceRecord, String>>),
    /// The session, where there is one; or why it cannot be read.
    Session(Option<Result<Session, String>>),
    Reply { status: u16, cache_control: Option<String>, body: Vec<u8> },
    Keys(Result<Vec<Jwk>, String>),
    Header(Result<Header, String>),
    Claims(Result<Claims, String>),
}

/// The mathematical model of an [`Action`].
#[allow(inconsistent_fields)]
pub enum ActionView {
    ReadMeta { key: Seq<char> },
    ReadPkce { key: Seq<char> },
    ReadSession { key: Seq<char> },
    WriteMeta { key: Seq<char>, record: TenantMetaView },
    WritePkce { key: Seq<char>, record: PkceRecordView },
    WriteSession { key: Seq<char>, record: SessionView },
    Delete { key: Seq<char> },
    Send(OutRequestView),
    DecodeKeys { document: Seq<u8> },
    DecodeHeader { json: Seq<u8> },
    DecodeClaims { json: Seq<u8> },
    Forward(OutRequestView),
}

/// The mathematical model of an [`Event`].
pub enum EventView {
    Failed(Seq<char>),
    Done,
    Meta(Option<TenantMetaView>),
    Pkce(Option<Result<PkceRecordView, Seq<char>>>),
    Session(Option<Result<SessionView, Seq<char>>>),
    Reply { status: u16, cache_control: Option<Seq<char>>, body: Seq<u8> },
    Keys(Result<Seq<JwkView>, Seq<char>>),
    Header(Result<HeaderView, Seq<char>>),
    Claims(Result<ClaimsView, Seq<char>>),
}

impl View for Action {
    type V = ActionView;

    open spec fn view(&self) -> ActionView {
        match self {
            Action::ReadMeta { key } => ActionView::ReadMeta { key: key@ },
            Action::ReadPkce { key } => ActionView::ReadPkce { key: key@ },
            Action::ReadSession { key } => ActionView::ReadSession { key: key@ },
            Action::WriteMeta { key, record } => ActionView::WriteMeta {
                key: key@,
                record: record@,
            },
            Action::WritePkce { key, record } => ActionView::WritePkce {
                key: key@,
                record: record@,
            },
            Action::WriteSession { key, record } => ActionView::WriteSession {
                key: key@,
                record: record@,
            },
            Action::Delete { key } => ActionView::Delete { key: key@ },
            Action::Send(req) => ActionView::Send(req@),
            Action::DecodeKeys { document } => ActionView::DecodeKeys { document: document@ },
            Action::DecodeHeader { json } => ActionView::DecodeHeader { json: json@ },
            Action::DecodeClaims { json } => ActionView::DecodeClaims { json: json@ },
            Action::Forward(req) => ActionView::Forward(req@),
        }
    }
}

impl View for Event {
    type V = EventView;

    open spec fn view(&self) -> EventView {
        match *self {
            Event::Failed(e) => EventView::Failed(e@),
            Event::Done => EventView::Done,
            Event::Meta(None) => EventView::Meta(None),
            Event::Meta(Some(m)) => EventView::Meta(Some(m@)),
            Event::Pkce(found) => EventView::Pkce(found_view(found)),
            Event::Session(found) => EventView::Session(found_session(found)),
            Event::Reply { status, cache_control, body } => EventView::Reply {
                status,
                cache_control: text_opt(cache_control),
                body: body@,
            },
            Event::Keys(Ok(keys)) => EventView::Keys(Ok(key_views(keys@))),
            Event::Keys(Err(e)) => EventView::Keys(Err(e@)),
            Event::Header(h) => EventView::Header(header_outcome(h)),
            Event::Claims(c) => EventView::Claims(claims_outcome(c)),
        }
    }
}

/// The refusal of an outcome that the action at hand does not have.
pub open spec fn outcome_fault() -> AuthErrorView {
    fault(ErrorKind::Outcome, "unexpected outcome of an action"@)
}

/// The refusal of an outcome that the action at hand does not have.
pub fn unexpected() -> (r: AuthError)
    ensures
        r@ == outcome_fault(),
{
    AuthError::plain(ErrorKind::Outcome, "unexpected outcome of an action")
}

/// The refusal where the store failed.
pub open spec fn store_fault(detail: Seq<char>) -> AuthErrorView {
    fault(ErrorKind::Store, detail)
}

/// The refusal where the store failed.
pub fn store_error(message: String) -> (r: AuthError)
    ensures
        r@ == store_fault(message@),
{
    AuthError { kind: ErrorKind::Store, message }
}

} // verus!
