//! The identity provider's endpoints and signing keys.
//!
//! One record per tenant holds both. It is fresh for as long as the provider allowed; an unknown
//! signing key makes the record be fetched again, though not more than once in a while: the record
//! bears the time at which that was last done, and hands it on to the record that replaces it.

use crate::config::Config;
use crate::error::{fault, AuthError, AuthErrorView, ErrorKind};
use crate::json::{member_text, JsonObject};
use crate::text::{
    chars_of, find_char, has_prefix, number, number_at, same_text, split, starts_at,
    str_opt, text_opt, trim, trim_bounds,
};
use crate::util::{clock_reads, now_secs};
use vstd::prelude::*;

verus! {

/// Do not fetch the keys more than once in this many seconds on account of an unknown key.
pub const KID_MISS_REFETCH_COOLDOWN_SECS: u64 = 60;

/// How long a record is fresh where the provider does not say.
pub const DEFAULT_JWKS_MAX_AGE_SECS: u64 = 3600;

/// A public key of the provider, as its key set lists it.
#[derive(Debug)]
pub struct Jwk {
    pub kty: String,
    pub kid: Option<String>,
    pub alg: Option<String>,
    /// The RSA modulus and exponent.
    pub n: Option<String>,
    pub e: Option<String>,
    /// The curve and the coordinates of the point.
    pub crv: Option<String>,
    pub x: Option<String>,
    pub y: Option<String>,
}

/// The mathematical model of a [`Jwk`].
pub struct JwkView {
    pub kty: Seq<char>,
    pub kid: Option<Seq<char>>,
    pub alg: Option<Seq<char>>,
    pub n: Option<Seq<char>>,
    pub e: Option<Seq<char>>,
    pub crv: Option<Seq<char>>,
    pub x: Option<Seq<char>>,
    pub y: Option<Seq<char>>,
}

impl View for Jwk {
    type V = JwkView;

    open spec fn view(&self) -> JwkView {
        JwkView {
            kty: self.kty@,
            kid: text_opt(self.kid),
            alg: text_opt(self.alg),
            n: text_opt(self.n),
            e: text_opt(self.e),
            crv: text_opt(self.crv),
            x: text_opt(self.x),
            y: text_opt(self.y),
        }
    }
}

/// What is known of a tenant's provider: its endpoints and keys, and when they were fetched.
#[derive(Debug)]
pub struct TenantMeta {
    pub issuer: String,
    pub authorization_endpoint: String,
    pub token_endpoint: String,
    /// Where the provider ends its own session. Empty where it advertises no such place.
    pub end_session_endpoint: String,
    pub jwks_uri: String,
    pub keys: Vec<Jwk>,
    pub fetched_at: u64,
    pub max_age: u64,
    /// When the keys were last fetched on account of an unknown key; zero where they never were.
    pub last_kid_miss_fetch: u64,
}

/// The mathematical model of a [`TenantMeta`].
pub struct TenantMetaView {
    pub issuer: Seq<char>,
    pub authorization_endpoint: Seq<char>,
    pub token_endpoint: Seq<char>,
    pub end_session_endpoint: Seq<char>,
    pub jwks_uri: Seq<char>,
    pub keys: Seq<JwkView>,
    pub fetched_at: u64,
    pub max_age: u64,
    pub last_kid_miss_fetch: u64,
}

/// The models of a sequence of keys.
pub open spec fn key_views(keys: Seq<Jwk>) -> Seq<JwkView> {
    Seq::new(keys.len(), |i: int| keys[i]@)
}

impl View for TenantMeta {
    type V = TenantMetaView;

    open spec fn view(&self) -> TenantMetaView {
        TenantMetaView {
            issuer: self.issuer@,
            authorization_endpoint: self.authorization_endpoint@,
            token_endpoint: self.token_endpoint@,
            end_session_endpoint: self.end_session_endpoint@,
            jwks_uri: self.jwks_uri@,
            keys: key_views(self.keys@),
            fetched_at: self.fetched_at,
            max_age: self.max_age,
            last_kid_miss_fetch: self.last_kid_miss_fetch,
        }
    }
}

/// Seconds from `since` to `now`; zero where `since` is not yet past.
pub open spec fn elapsed(now: u64, since: u64) -> int {
    if now >= since {
        now - since
    } else {
        0
    }
}

/// Is the record still fresh at `now`?
pub open spec fn is_fresh(meta: TenantMetaView, now: u64) -> bool {
    elapsed(now, meta.fetched_at) < meta.max_age
}

/// The first of `keys` with the key id `kid`.
pub open spec fn key_named(keys: Seq<JwkView>, kid: Seq<char>) -> Option<JwkView>
    decreases keys.len(),
{
    if keys.len() == 0 {
        None
    } else if keys[0].kid == Some(kid) {
        Some(keys[0])
    } else {
        key_named(keys.skip(1), kid)
    }
}

/// The key that a token means: the one with the key id it names; where it names none, the only
/// key there is.
pub open spec fn key_for(keys: Seq<JwkView>, kid: Option<Seq<char>>) -> Option<JwkView> {
    match kid {
        None => if keys.len() == 1 {
            Some(keys[0])
        } else {
            None
        },
        Some(id) => key_named(keys, id),
    }
}

impl Clone for Jwk {
    fn clone(&self) -> (r: Jwk)
        ensures
            r@ == self@,
    {
        Jwk {
            kty: self.kty.clone(),
            kid: self.kid.clone(),
            alg: self.alg.clone(),
            n: self.n.clone(),
            e: self.e.clone(),
            crv: self.crv.clone(),
            x: self.x.clone(),
            y: self.y.clone(),
        }
    }
}

impl Clone for TenantMeta {
    fn clone(&self) -> (r: TenantMeta)
        ensures
            r@ == self@,
    {
        let mut keys: Vec<Jwk> = Vec::new();
        let mut i: usize = 0;
        while i < self.keys.len()
            invariant
                i <= self.keys@.len(),
                key_views(keys@) == key_views(self.keys@).take(i as int),
            decreases self.keys@.len() - i,
        {
            let key = self.keys[i].clone();
            let ghost before = key_views(keys@);
            keys.push(key);
            assert(key_views(keys@) == before.push(key@));
            assert(before.push(key@) == key_views(self.keys@).take(i + 1));
            i = i + 1;
        }
        assert(key_views(self.keys@).take(i as int) == key_views(self.keys@));
        TenantMeta {
            issuer: self.issuer.clone(),
            authorization_endpoint: self.authorization_endpoint.clone(),
            token_endpoint: self.token_endpoint.clone(),
            end_session_endpoint: self.end_session_endpoint.clone(),
            jwks_uri: self.jwks_uri.clone(),
            keys,
            fetched_at: self.fetched_at,
            max_age: self.max_age,
            last_kid_miss_fetch: self.last_kid_miss_fetch,
        }
    }
}

impl TenantMeta {
    /// Is the record still fresh at `now`?
    pub fn fresh_at(&self, now: u64) -> (r: bool)
        ensures
            r == is_fresh(self@, now),
    {
        now.saturating_sub(self.fetched_at) < self.max_age
    }

    /// Is the record still fresh?
    pub fn fresh(&self) -> (r: bool)
        ensures
            exists|now: u64| clock_reads(now) && r == #[trigger] is_fresh(self@, now),
    {
        self.fresh_at(now_secs())
    }

    /// The key that a token with the key id `kid` means.
    pub fn find(&self, kid: Option<&str>) -> (r: Option<&Jwk>)
        ensures
            r is Some <==> key_for(self@.keys, str_opt(kid)) is Some,
            r matches Some(k) ==> key_for(self@.keys, str_opt(kid)) == Some(k@),
    {
        match kid {
            None => {
                if self.keys.len() == 1 {
                    Some(&self.keys[0])
                } else {
                    None
                }
            },
            Some(id) => {
                let ghost keys = key_views(self.keys@);
                let mut i: usize = 0;
                assert(keys.skip(0) == keys);
                while i < self.keys.len()
                    invariant
                        i <= self.keys@.len(),
                        keys == key_views(self.keys@),
                        kid == Some(id),
                        key_named(keys.skip(i as int), id@) == key_named(keys, id@),
                    decreases self.keys@.len() - i,
                {
                    assert(keys.skip(i as int)[0] == self.keys@[i as int]@);
                    if let Some(own) = &self.keys[i].kid {
                        if same_text(own.as_str(), id) {
                            return Some(&self.keys[i]);
                        }
                    }
                    assert(keys.skip(i as int).skip(1) == keys.skip(i + 1));
                    i = i + 1;
                }
                None
            },
        }
    }
}

/// The key under which a tenant's record is kept. The version in it changes with the shape of the
/// record, so that a record of another shape is never read.
pub open spec fn meta_key_text(tenant: Seq<char>) -> Seq<char> {
    "jwks:v2:"@ + tenant
}

/// The key under which a tenant's record is kept.
pub fn meta_key(cfg: &Config) -> (r: String)
    ensures
        r@ == meta_key_text(cfg@.tenant),
{
    let mut r = "jwks:v2:".to_owned();
    r.append(cfg.tenant.as_str());
    r
}

/// What one directive of a `Cache-Control` header says of the maximal age.
pub open spec fn max_age_directive(directive: Seq<char>) -> Option<u64> {
    let d = trim(directive);
    if has_prefix(d, "max-age="@) {
        number(d.skip("max-age="@.len() as int))
    } else {
        None
    }
}

/// What the first of `directives` that gives a maximal age says.
pub open spec fn max_age_among(directives: Seq<Seq<char>>) -> Option<u64>
    decreases directives.len(),
{
    if directives.len() == 0 {
        None
    } else {
        match max_age_directive(directives[0]) {
            Some(n) => Some(n),
            None => max_age_among(directives.skip(1)),
        }
    }
}

/// The maximal age that a `Cache-Control` header gives.
pub open spec fn max_age(cache_control: Seq<char>) -> Option<u64> {
    max_age_among(split(cache_control, ','))
}

/// The maximal age, in seconds, that a `Cache-Control` header gives.
pub fn parse_max_age(cache_control: &str) -> (r: Option<u64>)
    ensures
        r == max_age(cache_control@),
{
    let chars = chars_of(cache_control);
    let n = chars.len();
    let mut start: usize = 0;
    assert(chars@.skip(0) == chars@);
    loop
        invariant
            n == chars@.len(),
            chars@ == cache_control@,
            start <= n,
            max_age_among(split(chars@.skip(start as int), ',')) == max_age(cache_control@),
        decreases n - start,
    {
        let ghost rest = chars@.skip(start as int);
        assert(rest == chars@.subrange(start as int, n as int));
        let end = find_char(&chars, start, n, ',');
        let ghost piece = rest.take(end - start);
        assert(piece == chars@.subrange(start as int, end as int));
        assert(split(rest, ',')[0] == piece) by {
            if end == n {
                assert(piece == rest);
            }
        }
        let (lo, hi) = trim_bounds(&chars, start, end);
        if starts_at(&chars, lo, hi, "max-age=") {
            proof {
                reveal_strlit("max-age=");
            }
            let ghost d = chars@.subrange(lo as int, hi as int);
            assert(d.skip(8) == chars@.subrange(lo + 8, hi as int));
            let value = number_at(&chars, lo + 8, hi);
            if value.is_some() {
                return value;
            }
        }
        assert(max_age_directive(piece) is None);
        if end == n {
            assert(split(rest, ',').skip(1).len() == 0);
            assert(max_age_among(split(rest, ',').skip(1)) is None);
            return None;
        }
        assert(rest.skip(end - start + 1) == chars@.skip(end + 1));
        assert(split(rest, ',').skip(1) == split(chars@.skip(end + 1), ','));
        start = end + 1;
    }
}

/// The refusal of a discovery document without the field `key`.
pub open spec fn missing_field(key: Seq<char>) -> AuthErrorView {
    fault(ErrorKind::DiscoveryField, "discovery doc missing '"@ + key + "'"@)
}

/// The text of a field that the discovery document must have.
pub fn str_field(doc: &JsonObject, key: &str) -> (r: Result<String, AuthError>)
    ensures
        r is Ok <==> member_text(doc@, key@) is Some,
        r matches Ok(s) ==> member_text(doc@, key@) == Some(s@),
        r matches Err(e) ==> e@ == missing_field(key@),
{
    match doc.text(key) {
        Some(s) => Ok(s),
        None => {
            let mut message = "discovery doc missing '".to_owned();
            message.append(key);
            message.append("'");
            Err(AuthError { kind: ErrorKind::DiscoveryField, message })
        },
    }
}

} // verus!
