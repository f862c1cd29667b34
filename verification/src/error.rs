//! What can go wrong, and the text that says so.

use vstd::prelude::*;

verus! {

/// The reasons for which a request is refused with an error.
#[derive(Clone, Copy, Debug, PartialEq, Eq, Structural)]
pub enum ErrorKind {
    /// A required variable cannot be read.
    Variable,
    /// The key-value store failed.
    Store,
    /// No entropy could be had.
    Entropy,
    /// A text is not base64url.
    Base64,
    /// A JSON document cannot be read as what it should be.
    Json,
    /// The `code` parameter is missing.
    MissingCode,
    /// The `state` parameter is missing.
    MissingState,
    /// No login is pending under this state.
    UnknownState,
    /// The login was begun too long ago.
    StateExpired,
    /// A document could not be fetched.
    Fetch,
    /// The discovery document lacks a field.
    DiscoveryField,
    /// The key set has no `keys`.
    NoKeys,
    /// The signing key is unknown, and the provider was asked for such a one a moment ago.
    KidSuppressed,
    /// The signing key is unknown even to a fresh key set.
    KidUnknown,
    /// The token endpoint could not be reached, or refused.
    TokenEndpoint,
    /// The token response holds no identity token.
    NoIdToken,
    /// The identity token does not have three parts.
    Malformed,
    /// The identity token names an algorithm that is not supported.
    Algorithm,
    /// The signing key is of another type than the algorithm asks for.
    KeyType,
    /// The signing key lacks a component.
    KeyComponent,
    /// The signing key is not a key.
    BadKey,
    /// The signature is not of the form that the algorithm asks for.
    BadSignature,
    /// The signature does not verify.
    SignatureInvalid,
    /// The identity token comes from another issuer.
    Issuer,
    /// The identity token is meant for another audience.
    Audience,
    /// The identity token has expired.
    Expired,
    /// The identity token carries another nonce than the pending login.
    Nonce,
    /// A moment in time is past the range of the clock.
    TimeRange,
    /// The control plane could not be reached.
    Forward,
    /// The outcome of an action is not one that the action has.
    Outcome,
}

/// A refusal: its reason, and a text for whoever reads the response.
#[derive(Debug)]
pub struct AuthError {
    pub kind: ErrorKind,
    pub message: String,
}

/// The mathematical model of an [`AuthError`].
pub struct AuthErrorView {
    pub kind: ErrorKind,
    pub message: Seq<char>,
}

impl View for AuthError {
    type V = AuthErrorView;

    open spec fn view(&self) -> AuthErrorView {
        AuthErrorView { kind: self.kind, message: self.message@ }
    }
}

/// The refusal for `kind` with the text `message`.
pub open spec fn fault(kind: ErrorKind, message: Seq<char>) -> AuthErrorView {
    AuthErrorView { kind, message }
}

impl AuthError {
    /// A refusal whose text is fixed.
    pub fn plain(kind: ErrorKind, message: &str) -> (r: AuthError)
        ensures
            r@ == fault(kind, message@),
    {
        AuthError { kind, message: message.to_owned() }
    }

    /// A refusal whose text has a part that the case at hand supplies.
    pub fn with_detail(kind: ErrorKind, lead: &str, detail: &str) -> (r: AuthError)
        ensures
            r@ == fault(kind, lead@ + detail@),
    {
        let mut message = lead.to_owned();
        message.append(detail);
        AuthError { kind, message }
    }
}

} // verus!
