//! Per-tenant configuration.
//!
//! Nothing is baked in: every value comes from a variable that the surroundings read.

use crate::error::{fault, AuthError, ErrorKind};
use crate::text::{number, parse_number, trim_end_of, without_trailing};
use vstd::prelude::*;

verus! {

/// What a tenant's identity provider and control plane are, and how to speak to them.
#[derive(Debug)]
pub struct Config {
    /// Names the records of the tenant in the key-value store. One provider is one tenant.
    pub tenant: String,
    pub issuer: String,
    pub client_id: String,
    pub client_secret: String,
    pub redirect_uri: String,
    /// The audience to expect. Empty: the audience has to contain `client_id`.
    pub audience: String,
    /// The group that gates the control plane.
    pub admin_group: String,
    pub scopes: String,
    pub session_ttl_secs: u64,
    /// Shows the control plane that a request has been authorized.
    pub cp_forward_secret: String,
}

/// The mathematical model of a [`Config`].
pub struct ConfigView {
    pub tenant: Seq<char>,
    pub issuer: Seq<char>,
    pub client_id: Seq<char>,
    pub client_secret: Seq<char>,
    pub redirect_uri: Seq<char>,
    pub audience: Seq<char>,
    pub admin_group: Seq<char>,
    pub scopes: Seq<char>,
    pub session_ttl_secs: u64,
    pub cp_forward_secret: Seq<char>,
}

impl View for Config {
    type V = ConfigView;

    open spec fn view(&self) -> ConfigView {
        ConfigView {
            tenant: self.tenant@,
            issuer: self.issuer@,
            client_id: self.client_id@,
            client_secret: self.client_secret@,
            redirect_uri: self.redirect_uri@,
            audience: self.audience@,
            admin_group: self.admin_group@,
            scopes: self.scopes@,
            session_ttl_secs: self.session_ttl_secs,
            cp_forward_secret: self.cp_forward_secret@,
        }
    }
}

impl Clone for Config {
    fn clone(&self) -> (r: Config)
        ensures
            r@ == self@,
    {
        Config {
            tenant: self.tenant.clone(),
            issuer: self.issuer.clone(),
            client_id: self.client_id.clone(),
            client_secret: self.client_secret.clone(),
            redirect_uri: self.redirect_uri.clone(),
            audience: self.audience.clone(),
            admin_group: self.admin_group.clone(),
            scopes: self.scopes.clone(),
            session_ttl_secs: self.session_ttl_secs,
            cp_forward_secret: self.cp_forward_secret.clone(),
        }
    }
}

/// The variables as the surroundings read them: each its value, or, for one that has to be there,
/// what went wrong in reading it.
#[derive(Debug)]
pub struct Variables {
    pub tenant: Option<String>,
    pub issuer: Result<String, String>,
    pub client_id: Result<String, String>,
    pub client_secret: Result<String, String>,
    pub redirect_uri: Result<String, String>,
    pub audience: Option<String>,
    pub admin_group: Option<String>,
    pub scopes: Option<String>,
    pub session_ttl_secs: Option<String>,
    pub cp_forward_secret: Result<String, String>,
}

/// The text of an optional variable, or what stands in for it.
pub open spec fn text_or(v: Option<String>, default: Seq<char>) -> Seq<char> {
    match v {
        Some(s) => s@,
        None => default,
    }
}

/// The lifetime of a session where the variable gives none that is a number.
pub const DEFAULT_SESSION_TTL_SECS: u64 = 3600;

/// The lifetime of a session that a variable gives.
pub open spec fn ttl_or_default(v: Option<String>) -> u64 {
    match v {
        Some(s) => match number(s@) {
            Some(n) => n,
            None => DEFAULT_SESSION_TTL_SECS,
        },
        None => DEFAULT_SESSION_TTL_SECS,
    }
}

/// The first required variable that could not be read: what went wrong.
pub open spec fn first_unread(vars: Variables) -> Option<Seq<char>> {
    match (vars.issuer, vars.client_id, vars.client_secret, vars.redirect_uri, vars.cp_forward_secret) {
        (Err(e), _, _, _, _) => Some(e@),
        (_, Err(e), _, _, _) => Some(e@),
        (_, _, Err(e), _, _) => Some(e@),
        (_, _, _, Err(e), _) => Some(e@),
        (_, _, _, _, Err(e)) => Some(e@),
        _ => None,
    }
}

/// The configuration that the variables make, where all the required ones could be read.
pub open spec fn configured(vars: Variables) -> ConfigView {
    ConfigView {
        tenant: text_or(vars.tenant, "default"@),
        issuer: trim_end_of(vars.issuer->Ok_0@, '/'),
        client_id: vars.client_id->Ok_0@,
        client_secret: vars.client_secret->Ok_0@,
        redirect_uri: vars.redirect_uri->Ok_0@,
        audience: text_or(vars.audience, seq![]),
        admin_group: text_or(vars.admin_group, "cp-admins"@),
        scopes: text_or(vars.scopes, "openid profile email groups"@),
        session_ttl_secs: ttl_or_default(vars.session_ttl_secs),
        cp_forward_secret: vars.cp_forward_secret->Ok_0@,
    }
}

/// The text of an optional variable, or what stands in for it.
fn or_default(v: Option<String>, default: &str) -> (r: String)
    ensures
        r@ == text_or(v, default@),
{
    match v {
        Some(s) => s,
        None => default.to_owned(),
    }
}

/// The value of a required variable.
fn required(v: Result<String, String>) -> (r: Result<String, AuthError>)
    ensures
        v matches Ok(s) ==> r == Ok::<String, AuthError>(s),
        v matches Err(e) ==> r matches Err(f) && f@ == fault(ErrorKind::Variable, e@),
{
    match v {
        Ok(s) => Ok(s),
        Err(message) => Err(AuthError { kind: ErrorKind::Variable, message }),
    }
}

impl Config {
    /// Makes the configuration out of the variables. Refused where a required variable could not
    /// be read; the first of them, in the order of the fields, says why.
    pub fn load(vars: Variables) -> (r: Result<Config, AuthError>)
        ensures
            r is Ok <==> first_unread(vars) is None,
            r matches Ok(cfg) ==> cfg@ == configured(vars),
            r matches Err(e) ==> first_unread(vars) matches Some(why) && e@ == fault(
                ErrorKind::Variable,
                why,
            ),
    {
        let issuer = required(vars.issuer)?;
        let client_id = required(vars.client_id)?;
        let client_secret = required(vars.client_secret)?;
        let redirect_uri = required(vars.redirect_uri)?;
        let cp_forward_secret = required(vars.cp_forward_secret)?;
        let session_ttl_secs = match vars.session_ttl_secs {
            Some(s) => match parse_number(s.as_str()) {
                Some(n) => n,
                None => DEFAULT_SESSION_TTL_SECS,
            },
            None => DEFAULT_SESSION_TTL_SECS,
        };
        let audience = or_default(vars.audience, "");
        proof {
            reveal_strlit("");
            assert(""@ == Seq::<char>::empty());
        }
        Ok(
            Config {
                tenant: or_default(vars.tenant, "default"),
                issuer: trim_trailing_slash(issuer),
                client_id,
                client_secret,
                redirect_uri,
                audience,
                admin_group: or_default(vars.admin_group, "cp-admins"),
                scopes: or_default(vars.scopes, "openid profile email groups"),
                session_ttl_secs,
                cp_forward_secret,
            },
        )
    }
}

/// `s` without the slashes at its end.
pub fn trim_trailing_slash(s: String) -> (r: String)
    ensures
        r@ == trim_end_of(s@, '/'),
{
    without_trailing(s.as_str(), '/')
}

/// What the trimming of slashes leaves ends in no slash, is the beginning of what was there, and
/// only slashes are gone.
pub proof fn law_no_trailing_slash(s: Seq<char>)
    ensures
        trim_end_of(s, '/').len() > 0 ==> trim_end_of(s, '/').last() != '/',
        trim_end_of(s, '/').len() <= s.len(),
        s.take(trim_end_of(s, '/').len() as int) == trim_end_of(s, '/'),
        forall|i: int| trim_end_of(s, '/').len() <= i < s.len() ==> s[i] == '/',
        trim_end_of(trim_end_of(s, '/'), '/') == trim_end_of(s, '/'),
    decreases s.len(),
{
    if s.len() > 0 && s.last() == '/' {
        let shorter = s.drop_last();
        law_no_trailing_slash(shorter);
        let kept = trim_end_of(shorter, '/');
        assert(s.take(kept.len() as int) == shorter.take(kept.len() as int));
        assert forall|i: int| kept.len() <= i < s.len() implies s[i] == '/' by {
            if i < shorter.len() {
                assert(s[i] == shorter[i]);
            }
        }
    } else {
        assert(s.take(s.len() as int) == s);
    }
}

} // verus!
