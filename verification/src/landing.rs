//! The control plane's landing page. It does no authentication of its own: it answers whoever
//! presents the forwarding secret, and shows the identity that came along.

use crate::http::{add_pair, Response, ResponseView};
use crate::text::{same_text, split, split_text, text_opt, texts};
use vstd::prelude::*;

verus! {

/// A request to the control plane, as far as its headers are read.
#[derive(Debug)]
pub struct LandingRequest {
    /// The `x-cp-forward-secret` header.
    pub secret: Option<String>,
    /// The `x-auth-sub` header.
    pub sub: Option<String>,
    /// The `x-auth-email` header.
    pub email: Option<String>,
    /// The `x-auth-groups` header.
    pub groups: Option<String>,
}

/// The mathematical model of a [`LandingRequest`].
pub struct LandingRequestView {
    pub secret: Option<Seq<char>>,
    pub sub: Option<Seq<char>>,
    pub email: Option<Seq<char>>,
    pub groups: Option<Seq<char>>,
}

impl View for LandingRequest {
    type V = LandingRequestView;

    open spec fn view(&self) -> LandingRequestView {
        LandingRequestView {
            secret: text_opt(self.secret),
            sub: text_opt(self.sub),
            email: text_opt(self.email),
            groups: text_opt(self.groups),
        }
    }
}

/// How one character is shown in HTML.
pub open spec fn entity(c: char) -> Seq<char> {
    if c == '&' {
        "&amp;"@
    } else if c == '<' {
        "&lt;"@
    } else if c == '>' {
        "&gt;"@
    } else if c == '"' {
        "&quot;"@
    } else {
        seq![c]
    }
}

/// How a text is shown in HTML.
pub open spec fn escaped(s: Seq<char>) -> Seq<char>
    decreases s.len(),
{
    if s.len() == 0 {
        seq![]
    } else {
        escaped(s.drop_last()) + entity(s.last())
    }
}

/// How a text is shown in HTML: the four characters that are markup are written as entities.
pub fn esc(s: &str) -> (r: String)
    ensures
        r@ == escaped(s@),
{
    let mut r = String::new();
    for c in it: s.chars()
        invariant
            it.seq() == s@,
            r@ == escaped(s@.take(it.index() as int)),
    {
        assert(s@.take(it.index() + 1).drop_last() == s@.take(it.index() as int));
        if c == '&' {
            r.append("&amp;");
        } else if c == '<' {
            r.append("&lt;");
        } else if c == '>' {
            r.append("&gt;");
        } else if c == '"' {
            r.append("&quot;");
        } else {
            r.push(c);
        }
    }
    assert(s@.take(s@.len() as int) == s@);
    r
}

/// The list items for groups. An empty name has none.
pub open spec fn group_items(groups: Seq<Seq<char>>) -> Seq<char>
    decreases groups.len(),
{
    if groups.len() == 0 {
        seq![]
    } else if groups.last().len() == 0 {
        group_items(groups.drop_last())
    } else {
        group_items(groups.drop_last()) + "<li><code>"@ + escaped(groups.last()) + "</code></li>"@
    }
}

/// The list items for groups that come as one text with commas between them.
pub fn groups_html(groups: &str) -> (r: String)
    ensures
        r@ == group_items(split(groups@, ',')),
{
    let parts = split_text(groups, ',');
    let ghost all = texts(parts@);
    let mut r = String::new();
    let mut i: usize = 0;
    while i < parts.len()
        invariant
            i <= parts@.len(),
            all == texts(parts@),
            r@ == group_items(all.take(i as int)),
        decreases parts@.len() - i,
    {
        assert(all.take(i + 1).drop_last() == all.take(i as int));
        assert(all[i as int] == parts@[i as int]@);
        if !parts[i].as_str().is_empty() {
            r.append("<li><code>");
            r.append(esc(parts[i].as_str()).as_str());
            r.append("</code></li>");
        }
        i = i + 1;
    }
    assert(all.take(all.len() as int) == all);
    r
}

/// The page up to the subject.
pub const PAGE_HEAD: &'static str = r#"<!doctype html>
<html lang="en">
<head>
  <meta charset="utf-8">
  <meta name="viewport" content="width=device-width, initial-scale=1">
  <title>Control Plane</title>
  <style>
    :root { color-scheme: light dark; }
    body { font: 16px/1.5 system-ui, sans-serif; max-width: 42rem; margin: 4rem auto; padding: 0 1.5rem; }
    .badge { display:inline-block; background:#0a7f3f; color:#fff; padding:.15rem .6rem; border-radius:1rem; font-size:.8rem; letter-spacing:.02em; }
    .card { border:1px solid color-mix(in srgb, currentColor 18%, transparent); border-radius:.75rem; padding:1.25rem 1.5rem; margin:1.5rem 0; }
    dt { font-weight:600; } dd { margin:0 0 .75rem; }
    code { background: color-mix(in srgb, currentColor 10%, transparent); padding:.1rem .35rem; border-radius:.3rem; }
    a.logout { display:inline-block; margin-top:1rem; }
    footer { margin-top:2rem; font-size:.85rem; opacity:.7; }
  </style>
</head>
<body>
  <p><span class="badge">AUTHENTICATED</span></p>
  <h1>Control Plane</h1>
  <p>You reached the protected function. The OIDC component authenticated you, checked
     your admin group, and forwarded your identity here.</p>
  <div class="card">
    <dl>
      <dt>Subject (<code>sub</code>)</dt>"#;

/// The page from the subject to the address.
pub const PAGE_EMAIL: &'static str = r#"
      <dt>Email</dt>"#;

/// The page from the address to the groups.
pub const PAGE_GROUPS: &'static str = r#"
      <dt>Groups</dt><dd>"#;

/// The page from the groups on.
pub const PAGE_TAIL: &'static str = r#"</dd>
    </dl>
  </div>
  <a class="logout" href="/logout">Log out</a>
  <footer>Served by the <code>cp-landing</code> component, gated by <code>oidc-auth</code>.</footer>
</body>
</html>"#;

/// Where the page shows the subject.
pub open spec fn sub_place(sub: Seq<char>) -> Seq<char> {
    "<dd><code>"@ + escaped(sub) + "</code></dd>"@
}

/// Where the page shows the address.
pub open spec fn email_place(email: Seq<char>) -> Seq<char> {
    "<dd>"@ + escaped(email) + "</dd>"@
}

/// Where the page shows the groups.
pub open spec fn groups_place(groups: Seq<char>) -> Seq<char> {
    "<ul>"@ + group_items(split(groups, ',')) + "</ul>"@
}

/// The page for an identity.
pub open spec fn landing_page(sub: Seq<char>, email: Seq<char>, groups: Seq<char>) -> Seq<char> {
    PAGE_HEAD@ + sub_place(sub) + PAGE_EMAIL@ + email_place(email) + PAGE_GROUPS@ + groups_place(
        groups,
    ) + PAGE_TAIL@
}

/// The page for an identity.
pub fn landing_html(sub: &str, email: &str, groups: &str) -> (r: String)
    ensures
        r@ == landing_page(sub@, email@, groups@),
{
    let mut r = PAGE_HEAD.to_owned();
    r.append("<dd><code>");
    r.append(esc(sub).as_str());
    r.append("</code></dd>");
    r.append(PAGE_EMAIL);
    r.append("<dd>");
    r.append(esc(email).as_str());
    r.append("</dd>");
    r.append(PAGE_GROUPS);
    r.append("<ul>");
    r.append(groups_html(groups).as_str());
    r.append("</ul>");
    r.append(PAGE_TAIL);
    assert(r@ == landing_page(sub@, email@, groups@));
    r
}

/// Is a request to be answered: is there a secret, and was it presented?
pub open spec fn trusted(expected: Seq<char>, presented: Option<Seq<char>>) -> bool {
    expected.len() > 0 && presented == Some(expected)
}

/// A text that came along, or else `other`.
pub open spec fn given_or(v: Option<Seq<char>>, other: Seq<char>) -> Seq<char> {
    match v {
        Some(s) => s,
        None => other,
    }
}

/// The answer to a request without the secret.
pub open spec fn untrusted_view() -> ResponseView {
    ResponseView {
        status: 403,
        headers: seq![("content-type"@, "text/plain; charset=utf-8"@)],
        body: "403: control plane is only reachable through the auth component"@,
    }
}

/// The answer of the control plane to a request, given the secret that it expects.
pub open spec fn landing_view(expected: Seq<char>, req: LandingRequestView) -> ResponseView {
    if !trusted(expected, req.secret) {
        untrusted_view()
    } else {
        ResponseView {
            status: 200,
            headers: seq![
                ("content-type"@, "text/html; charset=utf-8"@),
                ("cache-control"@, "no-store"@),
            ],
            body: landing_page(
                given_or(req.sub, "unknown"@),
                given_or(req.email, seq![]),
                given_or(req.groups, seq![]),
            ),
        }
    }
}

/// A text that came along, or else `other`.
fn or_text(v: &Option<String>, other: &str) -> (r: String)
    ensures
        r@ == given_or(text_opt(*v), other@),
{
    match v {
        Some(s) => s.clone(),
        None => other.to_owned(),
    }
}

/// The answer of the control plane to a request, given the secret that it expects.
pub fn handle(expected: &str, req: &LandingRequest) -> (r: Response)
    ensures
        r@ == landing_view(expected@, req@),
{
    let presented = match &req.secret {
        Some(s) => same_text(s.as_str(), expected),
        None => false,
    };
    let mut headers: Vec<(String, String)> = Vec::new();
    if expected.is_empty() || !presented {
        add_pair(&mut headers, "content-type", "text/plain; charset=utf-8");
        let r = Response {
            status: 403,
            headers,
            body: "403: control plane is only reachable through the auth component".to_owned(),
        };
        assert(r@.headers == untrusted_view().headers);
        return r;
    }
    add_pair(&mut headers, "content-type", "text/html; charset=utf-8");
    add_pair(&mut headers, "cache-control", "no-store");
    let sub = or_text(&req.sub, "unknown");
    let email = or_text(&req.email, "");
    let groups = or_text(&req.groups, "");
    proof {
        reveal_strlit("");
        assert(""@ == Seq::<char>::empty());
    }
    let r = Response {
        status: 200,
        headers,
        body: landing_html(sub.as_str(), email.as_str(), groups.as_str()),
    };
    assert(r@.headers == landing_view(expected@, req@).headers);
    r
}

} // verus!
