//! Pending logins, sessions and the configuration.

use oidc_auth::action::Action;
use oidc_auth::config::{Config, Variables};
use oidc_auth::error::{AuthError, ErrorKind};
use oidc_auth::pkce::{
    begin, begin_at, begin_from, challenge_s256, pkce_key, take, take_at, PkceRecord,
};
use oidc_auth::session::{
    clear_cookie, create, create_at, create_from, create_with, lookup, lookup_at, revoke, sess_key, set_cookie,
    Lookup, Session, COOKIE_NAME,
};
use oidc_auth::util::cookie_value;

fn own(s: &str) -> String {
    s.to_string()
}

fn variables() -> Variables {
    Variables {
        tenant: None,
        issuer: Ok(own("https://idp.example/realm//")),
        client_id: Ok(own("cp-oidc")),
        client_secret: Ok(own("hush")),
        redirect_uri: Ok(own("https://app.example/callback")),
        audience: None,
        admin_group: None,
        scopes: None,
        session_ttl_secs: None,
        cp_forward_secret: Ok(own("forward")),
    }
}

fn config() -> Config {
    Config::load(variables()).unwrap()
}

fn pending(created: u64) -> PkceRecord {
    PkceRecord { verifier: own("v"), nonce: own("n"), return_to: own("/x"), created }
}

fn session(exp: u64) -> Session {
    Session {
        sub: own("user-1"),
        email: own("ann@example.org"),
        groups: vec![own("staff")],
        idp_tenant: own("default"),
        exp,
        id_token: own("t"),
    }
}

#[test]
fn configuration_has_defaults() {
    let cfg = config();
    assert_eq!(cfg.tenant, "default");
    assert_eq!(cfg.issuer, "https://idp.example/realm");
    assert_eq!(cfg.audience, "");
    assert_eq!(cfg.admin_group, "cp-admins");
    assert_eq!(cfg.scopes, "openid profile email groups");
    assert_eq!(cfg.session_ttl_secs, 3600);
    assert_eq!(cfg.clone().client_secret, "hush");
}

#[test]
fn configuration_takes_what_is_given() {
    let mut vars = variables();
    vars.tenant = Some(own("acme"));
    vars.audience = Some(own("api"));
    vars.admin_group = Some(own("ops"));
    vars.scopes = Some(own("openid"));
    vars.session_ttl_secs = Some(own("60"));
    let cfg = Config::load(vars).unwrap();
    assert_eq!(cfg.tenant, "acme");
    assert_eq!(cfg.audience, "api");
    assert_eq!(cfg.admin_group, "ops");
    assert_eq!(cfg.scopes, "openid");
    assert_eq!(cfg.session_ttl_secs, 60);
}

#[test]
fn lifetime_that_is_no_number_is_the_default() {
    for s in ["", "1h", "-1", " 60"] {
        let mut vars = variables();
        vars.session_ttl_secs = Some(own(s));
        assert_eq!(Config::load(vars).unwrap().session_ttl_secs, 3600);
    }
}

#[test]
fn required_variables_are_required() {
    let mut vars = variables();
    vars.cp_forward_secret = Err(own("no secret"));
    let e = Config::load(vars).unwrap_err();
    assert_eq!((e.kind, e.message), (ErrorKind::Variable, own("no secret")));
    let mut vars = variables();
    vars.client_id = Err(own("no client"));
    vars.redirect_uri = Err(own("no address"));
    assert_eq!(Config::load(vars).unwrap_err().message, "no client");
    let mut vars = variables();
    vars.issuer = Err(own("no issuer"));
    vars.client_secret = Err(own("no password"));
    assert_eq!(Config::load(vars).unwrap_err().message, "no issuer");
}

#[test]
fn challenge_of_a_known_verifier() {
    assert_eq!(
        challenge_s256("dBjftJeZ4CVP-mB92K27uhbUJU1p1r_wW1gFWFOEjXk"),
        "E9Melhoa2OwvFrEMTJguCHaoeK1t8URWbuGJSstw-cM"
    );
}

#[test]
fn login_of_known_entropy() {
    let verifier: Vec<u8> = (0..32).collect();
    let state: Vec<u8> = (0..24).collect();
    let (start, rec) = begin_from(&verifier, &state, &[255; 24], "/x", 9);
    assert_eq!(start.state, "AAECAwQFBgcICQoLDA0ODxAREhMUFRYX");
    assert_eq!(start.nonce, "________________________________");
    assert_eq!(start.code_challenge, "6oZqdX5MOLq_qBJ8vppAnT4fk6AP8UiP9zX8-Rev_9A");
    assert_eq!(rec.verifier, "AAECAwQFBgcICQoLDA0ODxAREhMUFRYXGBkaGxwdHh8");
    assert_eq!(rec.nonce, start.nonce);
    assert_eq!(rec.return_to, "/x");
    assert_eq!(rec.created, 9);
}

#[test]
fn every_login_is_new() {
    let (a, rec) = begin_at("/x", 100).unwrap();
    let (b, _) = begin_at("/x", 100).unwrap();
    assert_ne!(a.state, b.state);
    assert_ne!(a.nonce, b.nonce);
    assert_ne!(a.code_challenge, b.code_challenge);
    assert_eq!(rec.verifier.len(), 43);
    assert_eq!(rec.created, 100);
    assert_eq!(challenge_s256(&rec.verifier), a.code_challenge);
    assert!(begin("/").unwrap().1.created > 1_600_000_000);
}

#[test]
fn pending_login_waits_five_minutes() {
    assert_eq!(take_at(Some(Ok(pending(1000))), 1300).unwrap().return_to, "/x");
    let e = take_at(Some(Ok(pending(1000))), 1301).unwrap_err();
    assert_eq!((e.kind, e.message), (ErrorKind::StateExpired, own("state expired")));
    assert!(take_at(Some(Ok(pending(1000))), 10).is_ok());
    assert!(take(Some(Ok(pending(u64::MAX)))).is_ok());
    assert!(take(Some(Ok(pending(0)))).is_err());
}

#[test]
fn unknown_state_is_refused() {
    let e = take_at(None, 0).unwrap_err();
    assert_eq!((e.kind, e.message), (ErrorKind::UnknownState, own("unknown or expired state")));
    let e = take_at(Some(Err(own("bad record"))), 0).unwrap_err();
    assert_eq!((e.kind, e.message), (ErrorKind::Json, own("bad record")));
}

#[test]
fn session_of_known_entropy() {
    let id: Vec<u8> = (0..32).collect();
    let groups = vec![own("staff")];
    let (sid, s) = create_from(&config(), own("u"), own("e"), groups, own("t"), &id, 40);
    assert_eq!(sid, "AAECAwQFBgcICQoLDA0ODxAREhMUFRYXGBkaGxwdHh8");
    assert_eq!(s.sub, "u");
    assert_eq!(s.email, "e");
    assert_eq!(s.groups, vec!["staff"]);
    assert_eq!(s.idp_tenant, "default");
    assert_eq!(s.exp, 3640);
    assert_eq!(s.id_token, "t");
    assert_eq!(s.clone().groups, s.groups);
}

#[test]
fn every_session_has_its_own_id() {
    let cfg = config();
    let (a, _) = create_at(&cfg, own("u"), own("e"), Vec::new(), own("t"), 40).unwrap();
    let (b, s) = create(&cfg, own("u"), own("e"), Vec::new(), own("t")).unwrap();
    assert_ne!(a, b);
    assert_eq!(a.len(), 43);
    assert!(s.exp > 1_600_000_000);
}

#[test]
fn lifetime_past_the_clock_is_refused() {
    let cfg = Config { session_ttl_secs: u64::MAX, ..config() };
    let e = create_at(&cfg, own("u"), own("e"), Vec::new(), own("t"), 1).unwrap_err();
    assert_eq!(
        (e.kind, e.message),
        (ErrorKind::TimeRange, own("session lifetime is out of range"))
    );
    assert!(create_at(&cfg, own("u"), own("e"), Vec::new(), own("t"), 0).is_ok());
}

#[test]
fn want_of_entropy_comes_before_the_lifetime() {
    let with = |id: Result<Vec<u8>, AuthError>, ttl: u64| {
        let cfg = Config { session_ttl_secs: ttl, ..config() };
        create_with(id, &cfg, own("u"), own("e"), Vec::new(), own("t"), 1)
    };
    let none = || Err(AuthError { kind: ErrorKind::Entropy, message: own("getrandom: none") });
    assert_eq!(with(none(), 10).unwrap_err().message, "getrandom: none");
    assert_eq!(with(none(), u64::MAX).unwrap_err().kind, ErrorKind::Entropy);
    assert_eq!(with(Ok(vec![7; 32]), u64::MAX).unwrap_err().kind, ErrorKind::TimeRange);
    let (id, s) = with(Ok(vec![0; 32]), 10).unwrap();
    assert_eq!((id.as_str(), s.exp), ("A".repeat(43).as_str(), 11));
}

#[test]
fn session_lives_until_its_end() {
    assert!(matches!(lookup_at(Some(Ok(session(100))), 99), Ok(Lookup::Live(s)) if s.sub == "user-1"));
    assert!(matches!(lookup_at(Some(Ok(session(100))), 100), Ok(Lookup::Expired)));
    assert!(matches!(lookup_at(None, 0), Ok(Lookup::Absent)));
    let e = lookup_at(Some(Err(own("bad record"))), 0).unwrap_err();
    assert_eq!((e.kind, e.message), (ErrorKind::Json, own("bad record")));
    assert!(matches!(lookup(Some(Ok(session(u64::MAX)))), Ok(Lookup::Live(_))));
    assert!(matches!(lookup(Some(Ok(session(0)))), Ok(Lookup::Expired)));
}

#[test]
fn cookies_are_guarded() {
    assert_eq!(
        set_cookie("abc", 3600),
        "cp_session=abc; HttpOnly; Secure; SameSite=Lax; Path=/; Max-Age=3600"
    );
    assert_eq!(
        clear_cookie(),
        "cp_session=; HttpOnly; Secure; SameSite=Lax; Path=/; Max-Age=0"
    );
}

#[test]
fn session_id_comes_back_in_the_cookie() {
    let (id, _) = create_at(&config(), own("u"), own("e"), Vec::new(), own("t"), 40).unwrap();
    let set = set_cookie(&id, 60);
    let sent = set.split(';').next().unwrap();
    assert_eq!(cookie_value(sent, COOKIE_NAME), Some(id.as_str()));
}

#[test]
fn keys_of_the_store() {
    assert_eq!(pkce_key("s"), "pkce:s");
    assert_eq!(sess_key("s"), "sess:s");
    assert!(matches!(revoke("s"), Action::Delete { key } if key == "sess:s"));
}
