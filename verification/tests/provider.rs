//! Endpoints and keys of the identity provider.

use oidc_auth::action::{Action, Event};
use oidc_auth::config::Config;
use oidc_auth::error::{AuthError, ErrorKind};
use oidc_auth::http::Method;
use oidc_auth::jwks::{meta_key, Jwk, TenantMeta};
use oidc_auth::provider::{
    get_meta, key_step, meta_step, signing_key, FetchReason, KeyNext, KeyState, MetaNext, MetaState,
};

fn own(s: &str) -> String {
    s.to_string()
}

fn config() -> Config {
    Config {
        tenant: own("acme"),
        issuer: own("https://idp.example"),
        client_id: own("cp-oidc"),
        client_secret: own("hush"),
        redirect_uri: own("https://app.example/callback"),
        audience: String::new(),
        admin_group: own("cp-admins"),
        scopes: own("openid"),
        session_ttl_secs: 3600,
        cp_forward_secret: own("forward"),
    }
}

fn key(kid: Option<&str>) -> Jwk {
    Jwk {
        kty: own("RSA"),
        kid: kid.map(own),
        alg: None,
        n: Some(own("AQ")),
        e: Some(own("AQAB")),
        crv: None,
        x: None,
        y: None,
    }
}

fn meta(keys: Vec<Jwk>, fetched_at: u64, last_kid_miss_fetch: u64) -> TenantMeta {
    TenantMeta {
        issuer: own("https://idp.example"),
        authorization_endpoint: own("https://idp.example/auth"),
        token_endpoint: own("https://idp.example/token"),
        end_session_endpoint: String::new(),
        jwks_uri: own("https://idp.example/keys"),
        keys,
        fetched_at,
        max_age: 100,
        last_kid_miss_fetch,
    }
}

fn reply(status: u16, cache_control: Option<&str>, body: &str) -> Event {
    Event::Reply { status, cache_control: cache_control.map(own), body: body.as_bytes().to_vec() }
}

fn discovering() -> MetaState {
    MetaState::Discovery { why: FetchReason::Stale { last_kid_miss_fetch: 0 } }
}

const DISCOVERY: &str = r#"{
    "issuer": "https://idp.example",
    "authorization_endpoint": "https://idp.example/auth",
    "token_endpoint": "https://idp.example/token",
    "end_session_endpoint": "https://idp.example/end",
    "jwks_uri": "https://idp.example/keys",
    "scopes_supported": ["openid"]
}"#;

fn sent(next: MetaNext) -> (MetaState, String) {
    match next {
        MetaNext::Act(st, Action::Send(req)) => {
            assert_eq!(req.method, Method::Get);
            assert!(req.headers.is_empty());
            assert_eq!(req.body, "");
            (st, req.uri)
        }
        other => panic!("{other:?}"),
    }
}

fn failed(next: MetaNext) -> AuthError {
    match next {
        MetaNext::Failed(e) => e,
        other => panic!("{other:?}"),
    }
}

fn key_failed(next: KeyNext) -> AuthError {
    match next {
        KeyNext::Failed(e) => e,
        other => panic!("{other:?}"),
    }
}

fn discovery_failure(status: u16, body: &str) -> (ErrorKind, String) {
    let e = failed(meta_step(discovering(), reply(status, None, body), &config(), 0));
    (e.kind, e.message)
}

fn keys_state() -> MetaState {
    sent(meta_step(discovering(), reply(200, None, DISCOVERY), &config(), 0)).0
}

#[test]
fn record_is_looked_for_in_the_store_first() {
    let (st, act) = get_meta(&config());
    assert!(matches!(st, MetaState::Cache));
    assert!(matches!(act, Action::ReadMeta { key } if key == "jwks:v2:acme"));
    assert_eq!(meta_key(&config()), "jwks:v2:acme");
}

#[test]
fn fresh_record_is_used() {
    let cached = Event::Meta(Some(meta(vec![key(None)], 1000, 0)));
    match meta_step(MetaState::Cache, cached, &config(), 1099) {
        MetaNext::Ready(m) => assert_eq!(m.token_endpoint, "https://idp.example/token"),
        other => panic!("{other:?}"),
    }
}

#[test]
fn stale_or_missing_record_is_fetched() {
    for (cached, stamp) in [(Some(meta(Vec::new(), 1000, 990)), 990), (None, 0)] {
        let (st, uri) = sent(meta_step(MetaState::Cache, Event::Meta(cached), &config(), 1100));
        match st {
            MetaState::Discovery { why: FetchReason::Stale { last_kid_miss_fetch } } => {
                assert_eq!(last_kid_miss_fetch, stamp);
            }
            other => panic!("{other:?}"),
        }
        assert_eq!(uri, "https://idp.example/.well-known/openid-configuration");
    }
}

#[test]
fn fetched_record_is_written_and_used() {
    let cfg = config();
    let (st, uri) = sent(meta_step(discovering(), reply(200, None, DISCOVERY), &cfg, 5));
    assert_eq!(uri, "https://idp.example/keys");
    let keys = r#"{"keys":[]}"#;
    let next = meta_step(st, reply(200, Some("public, max-age=77"), keys), &cfg, 6);
    let st = match next {
        MetaNext::Act(st, Action::DecodeKeys { document }) => {
            assert_eq!(document, keys.as_bytes());
            st
        }
        other => panic!("{other:?}"),
    };
    let next = meta_step(st, Event::Keys(Ok(vec![key(Some("a"))])), &cfg, 7);
    let st = match next {
        MetaNext::Act(st, Action::WriteMeta { key, record }) => {
            assert_eq!(key, "jwks:v2:acme");
            assert_eq!(record.issuer, "https://idp.example");
            assert_eq!(record.authorization_endpoint, "https://idp.example/auth");
            assert_eq!(record.end_session_endpoint, "https://idp.example/end");
            assert_eq!(record.keys.len(), 1);
            assert_eq!(record.fetched_at, 7);
            assert_eq!(record.max_age, 77);
            assert_eq!(record.last_kid_miss_fetch, 0);
            st
        }
        other => panic!("{other:?}"),
    };
    match meta_step(st, Event::Done, &cfg, 8) {
        MetaNext::Ready(m) => assert_eq!((m.fetched_at, m.max_age), (7, 77)),
        other => panic!("{other:?}"),
    }
}

#[test]
fn record_without_an_age_lasts_an_hour() {
    let next = meta_step(keys_state(), reply(200, Some("no-cache"), r#"{"keys":[]}"#), &config(), 6);
    let st = match next {
        MetaNext::Act(st, _) => st,
        other => panic!("{other:?}"),
    };
    match meta_step(st, Event::Keys(Ok(Vec::new())), &config(), 7) {
        MetaNext::Act(_, Action::WriteMeta { record, .. }) => assert_eq!(record.max_age, 3600),
        other => panic!("{other:?}"),
    }
}

#[test]
fn discovery_failures_are_told_apart() {
    let url = "https://idp.example/.well-known/openid-configuration";
    assert_eq!(
        discovery_failure(404, DISCOVERY),
        (ErrorKind::Fetch, format!("GET {url} -> HTTP 404"))
    );
    assert_eq!(discovery_failure(300, DISCOVERY).0, ErrorKind::Fetch);
    assert_eq!(discovery_failure(199, DISCOVERY).0, ErrorKind::Fetch);
    let e = discovery_failure(200, "<html>");
    assert_eq!(e.0, ErrorKind::Json);
    assert!(e.1.starts_with(&format!("parse JSON from {url}: ")));
    let e = failed(meta_step(discovering(), Event::Failed(own("down")), &config(), 0));
    assert_eq!((e.kind, e.message), (ErrorKind::Fetch, format!("GET {url}: down")));
}

#[test]
fn discovery_fields_are_required() {
    for field in ["issuer", "authorization_endpoint", "token_endpoint", "jwks_uri"] {
        let body = DISCOVERY.replace(&format!("\"{field}\""), "\"other\"");
        assert_eq!(
            discovery_failure(200, &body),
            (ErrorKind::DiscoveryField, format!("discovery doc missing '{field}'"))
        );
    }
    let body = DISCOVERY.replace("\"https://idp.example/token\"", "7");
    assert_eq!(discovery_failure(200, &body).1, "discovery doc missing 'token_endpoint'");
    assert_eq!(discovery_failure(200, "[]").1, "discovery doc missing 'issuer'");
    let body = DISCOVERY.replace("\"end_session_endpoint\"", "\"other\"");
    sent(meta_step(discovering(), reply(200, None, &body), &config(), 0));
}

#[test]
fn key_set_failures_are_told_apart() {
    let cfg = config();
    let e = failed(meta_step(keys_state(), reply(200, None, r#"{"k":[]}"#), &cfg, 0));
    assert_eq!((e.kind, e.message), (ErrorKind::NoKeys, own("JWKS missing 'keys'")));
    let e = failed(meta_step(keys_state(), reply(500, None, "{}"), &cfg, 0));
    assert_eq!(
        (e.kind, e.message),
        (ErrorKind::Fetch, own("GET https://idp.example/keys -> HTTP 500"))
    );
    let e = failed(meta_step(keys_state(), Event::Failed(own("down")), &cfg, 0));
    assert_eq!(e.message, "GET https://idp.example/keys: down");
    let st = match meta_step(keys_state(), reply(200, None, r#"{"keys":1}"#), &cfg, 0) {
        MetaNext::Act(st, _) => st,
        other => panic!("{other:?}"),
    };
    let e = failed(meta_step(st, Event::Keys(Err(own("no list"))), &cfg, 0));
    assert_eq!((e.kind, e.message), (ErrorKind::Json, own("no list")));
}

#[test]
fn store_failures_are_reported() {
    let e = failed(meta_step(MetaState::Cache, Event::Failed(own("no store")), &config(), 0));
    assert_eq!((e.kind, e.message), (ErrorKind::Store, own("no store")));
    let save = MetaState::Save { meta: meta(Vec::new(), 0, 0) };
    let e = failed(meta_step(save, Event::Failed(own("full")), &config(), 0));
    assert_eq!((e.kind, e.message), (ErrorKind::Store, own("full")));
}

#[test]
fn outcomes_of_other_actions_are_refused() {
    let e = failed(meta_step(MetaState::Cache, Event::Done, &config(), 0));
    assert_eq!(e.kind, ErrorKind::Outcome);
    assert_eq!(e.message, "unexpected outcome of an action");
}

#[test]
fn key_is_found_by_its_id() {
    let m = meta(vec![key(Some("a")), key(None), key(Some("b"))], 0, 0);
    assert_eq!(m.find(Some("b")).unwrap().kid.as_deref(), Some("b"));
    assert!(m.find(Some("c")).is_none());
    assert!(m.find(None).is_none());
    let one = meta(vec![key(Some("a"))], 0, 0);
    assert_eq!(one.find(None).unwrap().kid.as_deref(), Some("a"));
    assert!(!meta(Vec::new(), 0, 0).fresh());
    assert!(meta(Vec::new(), u64::MAX, 0).fresh());
}

#[test]
fn known_key_needs_no_fetch() {
    let cfg = config();
    let (st, act) = signing_key(&cfg);
    assert!(matches!(act, Action::ReadMeta { .. }));
    let cached = Event::Meta(Some(meta(vec![key(Some("a"))], 1000, 0)));
    match key_step(&Some(own("a")), st, cached, &cfg, 1001) {
        KeyNext::Found(k) => assert_eq!(k.kid.as_deref(), Some("a")),
        other => panic!("{other:?}"),
    }
}

#[test]
fn unknown_key_is_fetched_and_found() {
    let cfg = config();
    let cached = Event::Meta(Some(meta(vec![key(Some("a"))], 1000, 940)));
    let kid = Some(own("b"));
    match key_step(&kid, signing_key(&cfg).0, cached, &cfg, 1000) {
        KeyNext::Act(
            KeyState::Refetch(MetaState::Discovery { why: FetchReason::UnknownKid }),
            Action::Send(req),
        ) => {
            assert_eq!(req.uri, "https://idp.example/.well-known/openid-configuration");
        }
        other => panic!("{other:?}"),
    }
    let renewed = meta(vec![key(Some("b"))], 1000, 0);
    let st = KeyState::Refetch(MetaState::Save { meta: renewed });
    match key_step(&kid, st, Event::Done, &cfg, 1001) {
        KeyNext::Found(k) => assert_eq!(k.kid.as_deref(), Some("b")),
        other => panic!("{other:?}"),
    }
}

#[test]
fn key_that_stays_unknown_is_noted() {
    let cfg = config();
    let kid = Some(own("b"));
    let renewed = meta(vec![key(Some("a"))], 1000, 0);
    let st = KeyState::Refetch(MetaState::Save { meta: renewed });
    let (st, record) = match key_step(&kid, st, Event::Done, &cfg, 1001) {
        KeyNext::Act(st, Action::WriteMeta { key, record }) => {
            assert_eq!(key, "jwks:v2:acme");
            (st, record)
        }
        other => panic!("{other:?}"),
    };
    assert_eq!(record.last_kid_miss_fetch, 1001);
    assert_eq!(record.fetched_at, 1000);
    let e = key_failed(key_step(&kid, st, Event::Done, &cfg, 1002));
    assert_eq!(
        (e.kind, e.message),
        (ErrorKind::KidUnknown, own("no signing key for kid after refetch"))
    );
    let other = Some(own("c"));
    let again = Event::Meta(Some(record.clone()));
    let e = key_failed(key_step(&other, signing_key(&cfg).0, again, &cfg, 1060));
    assert_eq!(
        (e.kind, e.message),
        (
            ErrorKind::KidSuppressed,
            own("unknown signing kid (refetch suppressed by negative-cache cooldown)")
        )
    );
    let later = Event::Meta(Some(record));
    assert!(matches!(
        key_step(&other, signing_key(&cfg).0, later, &cfg, 1061),
        KeyNext::Act(KeyState::Refetch(_), _)
    ));
}

/// Runs the getting of a key to its end; every fetch brings `keys`. Gives the outcome, the records
/// that were written, and how often something was fetched.
fn look_up(
    kid: &str,
    cached: Option<TenantMeta>,
    keys: &[Jwk],
    age: &str,
    now: u64,
) -> (Result<Jwk, ErrorKind>, Vec<TenantMeta>, usize) {
    let cfg = config();
    let kid = Some(own(kid));
    let (mut written, mut fetches) = (Vec::new(), 0);
    let (mut st, mut act) = signing_key(&cfg);
    loop {
        let ev = match act {
            Action::ReadMeta { .. } => Event::Meta(cached.clone()),
            Action::WriteMeta { record, .. } => {
                written.push(record);
                Event::Done
            }
            Action::Send(req) => {
                fetches += 1;
                let body = if req.uri.ends_with("/keys") { r#"{"keys":[]}"# } else { DISCOVERY };
                reply(200, Some(age), body)
            }
            Action::DecodeKeys { .. } => Event::Keys(Ok(keys.to_vec())),
            other => panic!("{other:?}"),
        };
        match key_step(&kid, st, ev, &cfg, now) {
            KeyNext::Act(next, then) => (st, act) = (next, then),
            KeyNext::Found(k) => return (Ok(k), written, fetches),
            KeyNext::Failed(e) => return (Err(e.kind), written, fetches),
        }
    }
}

#[test]
fn refetch_that_finds_its_key_is_stamped() {
    let old = meta(vec![key(Some("a"))], 1000, 0);
    let (r, written, fetches) =
        look_up("b", Some(old), &[key(Some("b"))], "max-age=3600", 1001);
    assert_eq!(r.unwrap().kid.as_deref(), Some("b"));
    assert_eq!(fetches, 2);
    assert_eq!(written.len(), 1);
    assert_eq!(written[0].last_kid_miss_fetch, 1001);
    for (now, want, n) in [
        (1001, ErrorKind::KidSuppressed, 0),
        (1060, ErrorKind::KidSuppressed, 0),
        (1061, ErrorKind::KidUnknown, 2),
    ] {
        let kept = Some(written[0].clone());
        let (r, _, fetches) = look_up("c", kept, &[key(Some("b"))], "max-age=3600", now);
        assert_eq!((r.unwrap_err(), fetches), (want, n));
    }
}

#[test]
fn stale_record_hands_on_its_stamp() {
    let old = meta(vec![key(Some("a"))], 1000, 1150);
    let (r, written, fetches) =
        look_up("b", Some(old), &[key(Some("a"))], "max-age=0", 1200);
    assert_eq!(r.unwrap_err(), ErrorKind::KidSuppressed);
    assert_eq!(fetches, 2);
    assert_eq!(written.len(), 1);
    assert_eq!(written[0].last_kid_miss_fetch, 1150);
    let (r, written, fetches) =
        look_up("b", Some(written[0].clone()), &[key(Some("a"))], "max-age=0", 1209);
    assert_eq!((r.unwrap_err(), fetches), (ErrorKind::KidSuppressed, 2));
    assert_eq!(written[0].last_kid_miss_fetch, 1150);
}

#[test]
fn record_that_was_just_fetched_is_not_fetched_again() {
    for cached in [None, Some(meta(vec![key(Some("a"))], 0, 0))] {
        let (r, written, fetches) = look_up("b", cached, &[key(Some("a"))], "max-age=9", 1200);
        assert_eq!((r.unwrap_err(), fetches), (ErrorKind::KidUnknown, 2));
        assert_eq!(written.last().unwrap().last_kid_miss_fetch, 1200);
    }
    let (r, _, fetches) = look_up("b", None, &[key(Some("b"))], "max-age=9", 1200);
    assert!(r.is_ok());
    assert_eq!(fetches, 2);
}

#[test]
fn note_needs_the_store() {
    let cfg = config();
    let e = key_failed(key_step(&None, KeyState::Stamp, Event::Failed(own("full")), &cfg, 0));
    assert_eq!((e.kind, e.message), (ErrorKind::Store, own("full")));
    let e = key_failed(key_step(&None, KeyState::Stamp, Event::Meta(None), &cfg, 0));
    assert_eq!(e.kind, ErrorKind::Outcome);
}
