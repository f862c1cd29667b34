//! Small values: base64url, cookies, forms, numbers, texts.

use oidc_auth::error::ErrorKind;
use oidc_auth::form::query_param;
use oidc_auth::http::{find_value, redirect, redirect_with_cookie, text};
use oidc_auth::jwks::parse_max_age;
use oidc_auth::text::{
    begins_with, decimal_text, joined, parse_number, split_text, without_suffix, without_trailing,
};
use oidc_auth::util::{
    b64url, b64url_decode, clock_secs, cookie_value, drawn, now_secs, random_bytes, random_token,
};

fn pair(name: &str, value: &str) -> (String, String) {
    (name.to_string(), value.to_string())
}

#[test]
fn base64url_of_known_bytes() {
    assert_eq!(b64url(b""), "");
    assert_eq!(b64url(b"f"), "Zg");
    assert_eq!(b64url(b"fo"), "Zm8");
    assert_eq!(b64url(b"foo"), "Zm9v");
    assert_eq!(b64url(&[0xfb, 0xff]), "-_8");
}

#[test]
fn base64url_decoding_undoes_encoding() {
    for n in 0..70usize {
        let bytes: Vec<u8> = (0..n).map(|i| (i * 37 + 11) as u8).collect();
        assert_eq!(b64url_decode(&b64url(&bytes)).unwrap(), bytes);
    }
}

#[test]
fn base64url_refuses_padding_and_stray_bits() {
    for s in ["Zg==", "Zh", "Z", "Zm9v!", "Zm+v", "Zm/v", " Zg"] {
        let e = b64url_decode(s).unwrap_err();
        assert_eq!(e.kind, ErrorKind::Base64);
        assert!(e.message.starts_with("base64url decode: "));
        assert!(e.message.len() > "base64url decode: ".len());
    }
}

#[test]
fn random_bytes_have_the_length_asked_for() {
    assert_eq!(random_bytes(0).unwrap().len(), 0);
    let a = random_bytes(32).unwrap();
    let b = random_bytes(32).unwrap();
    assert_eq!(a.len(), 32);
    assert_ne!(a, b);
}

#[test]
fn random_tokens_are_base64url() {
    let t = random_token(32).unwrap();
    assert_eq!(t.len(), 43);
    assert_eq!(b64url_decode(&t).unwrap().len(), 32);
    assert_eq!(random_token(24).unwrap().len(), 32);
    assert_ne!(random_token(24).unwrap(), random_token(24).unwrap());
}

#[test]
fn want_of_entropy_is_reported() {
    assert_eq!(drawn(Ok(vec![1, 2])).unwrap(), vec![1, 2]);
    let e = drawn(Err("no source".to_string())).unwrap_err();
    assert_eq!(e.kind, ErrorKind::Entropy);
    assert_eq!(e.message, "getrandom: no source");
}

#[test]
fn the_clock_runs() {
    assert_eq!(clock_secs(Some(17)), 17);
    assert_eq!(clock_secs(None), 0);
    assert!(now_secs() > 1_600_000_000);
}

#[test]
fn cookie_is_found_among_others() {
    assert_eq!(cookie_value("cp_session=abc", "cp_session"), Some("abc"));
    assert_eq!(cookie_value("a=1; cp_session=abc; b=2", "cp_session"), Some("abc"));
    assert_eq!(cookie_value(" cp_session = abc ", "cp_session"), Some("abc"));
    assert_eq!(cookie_value("cp_session=a=b", "cp_session"), Some("a=b"));
    assert_eq!(cookie_value("cp_session=1; cp_session=2", "cp_session"), Some("1"));
    assert_eq!(cookie_value("cp_session=", "cp_session"), Some(""));
    assert_eq!(cookie_value("xcp_session=1", "cp_session"), None);
    assert_eq!(cookie_value("cp_session", "cp_session"), None);
    assert_eq!(cookie_value("junk; cp_session=é", "cp_session"), Some("é"));
    assert_eq!(cookie_value("", "cp_session"), None);
}

#[test]
fn query_parameters_are_decoded() {
    assert_eq!(query_param("a=1&b=x+y%2Fz", "b"), Some("x y/z".to_string()));
    assert_eq!(query_param("a=1&a=2", "a"), Some("1".to_string()));
    assert_eq!(query_param("a", "a"), Some(String::new()));
    assert_eq!(query_param("a=1", "b"), None);
    assert_eq!(query_param("", "b"), None);
    assert_eq!(query_param("k=%E2%82%AC", "k"), Some("\u{20ac}".to_string()));
}

#[test]
fn the_first_value_of_a_name_counts() {
    let pairs = vec![pair("a", "1"), pair("b", "2"), pair("a", "3")];
    assert_eq!(find_value(&pairs, "a"), Some("1".to_string()));
    assert_eq!(find_value(&pairs, "b"), Some("2".to_string()));
    assert_eq!(find_value(&pairs, "c"), None);
}

#[test]
fn responses_have_their_headers() {
    let r = redirect("/x").unwrap();
    assert_eq!(r.status, 302);
    assert_eq!(r.headers, vec![pair("location", "/x"), pair("cache-control", "no-store")]);
    assert_eq!(r.body, "");
    let r = redirect_with_cookie("/x", "c=1").unwrap();
    assert_eq!(r.status, 302);
    assert_eq!(
        r.headers,
        vec![pair("location", "/x"), pair("set-cookie", "c=1"), pair("cache-control", "no-store")]
    );
    let r = text(401, "no".to_string());
    assert_eq!(r.status, 401);
    assert_eq!(
        r.headers,
        vec![
            pair("content-type", "text/plain; charset=utf-8"),
            pair("cache-control", "no-store"),
        ]
    );
    assert_eq!(r.body, "no");
}

#[test]
fn maximal_age_of_a_cache_control_header() {
    assert_eq!(parse_max_age("max-age=60"), Some(60));
    assert_eq!(parse_max_age("public, max-age=86400, must-revalidate"), Some(86400));
    assert_eq!(parse_max_age("no-store"), None);
    assert_eq!(parse_max_age("max-age=x, max-age=5"), Some(5));
    assert_eq!(parse_max_age("max-age=+7"), Some(7));
    assert_eq!(parse_max_age("max-age= 7"), None);
    assert_eq!(parse_max_age("Max-Age=7"), None);
    assert_eq!(parse_max_age("max-age=18446744073709551616"), None);
    assert_eq!(parse_max_age("max-age=18446744073709551615"), Some(u64::MAX));
    assert_eq!(parse_max_age(""), None);
}

#[test]
fn numbers_are_read_back() {
    for n in [0u64, 7, 10, 302, 3600, 1_000_000, u64::MAX] {
        assert_eq!(decimal_text(n), n.to_string());
        assert_eq!(parse_number(&decimal_text(n)), Some(n));
    }
    assert_eq!(parse_number("+12"), Some(12));
    assert_eq!(parse_number("007"), Some(7));
    assert_eq!(parse_number(""), None);
    assert_eq!(parse_number("+"), None);
    assert_eq!(parse_number("-1"), None);
    assert_eq!(parse_number("++1"), None);
    assert_eq!(parse_number("18446744073709551616"), None);
}

#[test]
fn texts_split_and_join() {
    assert_eq!(split_text("a,b,,c", ','), vec!["a", "b", "", "c"]);
    assert_eq!(split_text("", ','), vec![""]);
    let parts = vec!["x".to_string(), "y".to_string(), "z".to_string()];
    assert_eq!(joined(&parts, ","), "x,y,z");
    assert_eq!(split_text(&joined(&parts, ","), ','), parts);
    assert_eq!(joined(&Vec::new(), ","), "");
}

#[test]
fn ends_of_texts() {
    assert_eq!(without_trailing("a//", '/'), "a");
    assert_eq!(without_trailing("///", '/'), "");
    assert_eq!(without_suffix("x/callback", "/callback"), Some("x".to_string()));
    assert_eq!(without_suffix("callback", "/callback"), None);
    assert!(begins_with("//a", "//"));
    assert!(!begins_with("/", "//"));
}
