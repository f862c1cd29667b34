//! The control plane's landing page.

use oidc_auth::landing::{esc, groups_html, handle, landing_html, LandingRequest};

fn own(s: &str) -> String {
    s.to_string()
}

fn request(secret: Option<&str>) -> LandingRequest {
    LandingRequest {
        secret: secret.map(own),
        sub: Some(own("user-1")),
        email: Some(own("ann@example.org")),
        groups: Some(own("cp-admins,staff")),
    }
}

#[test]
fn markup_is_escaped() {
    assert_eq!(esc("a<b>&\"c\""), "a&lt;b&gt;&amp;&quot;c&quot;");
    assert_eq!(esc("&lt;"), "&amp;lt;");
    assert_eq!(esc("it's"), "it's");
    assert_eq!(esc(""), "");
    assert_eq!(esc("é"), "é");
}

#[test]
fn groups_become_items() {
    assert_eq!(groups_html("a,,b<"), "<li><code>a</code></li><li><code>b&lt;</code></li>");
    assert_eq!(groups_html(""), "");
    assert_eq!(groups_html(","), "");
}

#[test]
fn page_shows_the_identity() {
    let page = landing_html("user-1", "ann@example.org", "cp-admins,staff");
    assert!(page.starts_with("<!doctype html>\n<html lang=\"en\">\n<head>\n"));
    assert!(page.ends_with("</body>\n</html>"));
    assert!(page.contains(
        "      <dt>Subject (<code>sub</code>)</dt><dd><code>user-1</code></dd>\n      \
         <dt>Email</dt><dd>ann@example.org</dd>\n      \
         <dt>Groups</dt><dd><ul><li><code>cp-admins</code></li><li><code>staff</code></li></ul></dd>\n    </dl>\n"
    ));
    assert!(page.contains("    :root { color-scheme: light dark; }\n"));
    assert!(page.contains("<a class=\"logout\" href=\"/logout\">Log out</a>"));
}

#[test]
fn identity_adds_no_markup() {
    let count = |page: &str, c: char| page.chars().filter(|x| *x == c).count();
    let empty = landing_html("", "", "");
    for (sub, email, groups, k) in [
        ("<b>", "\"><script>", "", 0),
        ("u", "e", "a,,<i>,", 2),
        ("&lt;", "<", "<<<,>>>,x", 3),
    ] {
        let page = landing_html(sub, email, groups);
        assert_eq!(count(&page, '<'), count(&empty, '<') + 4 * k);
        assert_eq!(count(&page, '>'), count(&empty, '>') + 4 * k);
        assert!(page.contains(&format!("<dd><code>{}</code></dd>", esc(sub))));
        assert!(page.contains(&format!("<dd>{}</dd>", esc(email))));
        assert!(page.contains(&format!("<ul>{}</ul>", groups_html(groups))));
    }
}

#[test]
fn secret_opens_the_page() {
    let r = handle("forward", &request(Some("forward")));
    assert_eq!(r.status, 200);
    assert_eq!(
        r.headers,
        vec![
            (own("content-type"), own("text/html; charset=utf-8")),
            (own("cache-control"), own("no-store")),
        ]
    );
    assert_eq!(r.body, landing_html("user-1", "ann@example.org", "cp-admins,staff"));
}

#[test]
fn missing_identity_is_filled_in() {
    let req = LandingRequest { secret: Some(own("s")), sub: None, email: None, groups: None };
    assert_eq!(handle("s", &req).body, landing_html("unknown", "", ""));
}

#[test]
fn nobody_enters_without_the_secret() {
    for (expected, presented) in
        [("forward", None), ("forward", Some("other")), ("", Some("")), ("", None), ("", Some("x"))]
    {
        let r = handle(expected, &request(presented));
        assert_eq!(r.status, 403);
        assert_eq!(r.headers, vec![(own("content-type"), own("text/plain; charset=utf-8"))]);
        assert_eq!(r.body, "403: control plane is only reachable through the auth component");
    }
}
