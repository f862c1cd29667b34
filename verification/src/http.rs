//! Requests and responses as plain values.

use crate::error::AuthError;
use crate::text::{same_text, text_opt};
use vstd::prelude::*;

verus! {

/// A request that came in, as far as the flow reads it.
#[derive(Debug)]
pub struct Request {
    pub path: String,
    /// The query string, without the question mark.
    pub query: String,
    /// The `Cookie` header.
    pub cookie: Option<String>,
}

#[derive(Clone, Copy, Debug, PartialEq, Eq, Structural)]
pub enum Method {
    Get,
    Post,
}

/// A request that goes out.
#[derive(Debug)]
pub struct OutRequest {
    pub method: Method,
    pub uri: String,
    pub headers: Vec<(String, String)>,
    pub body: String,
}

/// A response to a request that came in.
#[derive(Debug)]
pub struct Response {
    pub status: u16,
    pub headers: Vec<(String, String)>,
    pub body: String,
}

/// The mathematical model of a [`Request`].
pub struct RequestView {
    pub path: Seq<char>,
    pub query: Seq<char>,
    pub cookie: Option<Seq<char>>,
}

/// The mathematical model of an [`OutRequest`].
pub struct OutRequestView {
    pub method: Method,
    pub uri: Seq<char>,
    pub headers: Seq<(Seq<char>, Seq<char>)>,
    pub body: Seq<char>,
}

/// The mathematical model of a [`Response`].
pub struct ResponseView {
    pub status: u16,
    pub headers: Seq<(Seq<char>, Seq<char>)>,
    pub body: Seq<char>,
}

/// The texts that a sequence of pairs holds.
pub open spec fn pair_texts(v: Seq<(String, String)>) -> Seq<(Seq<char>, Seq<char>)> {
    Seq::new(v.len(), |i: int| (v[i].0@, v[i].1@))
}

impl View for Request {
    type V = RequestView;

    open spec fn view(&self) -> RequestView {
        RequestView { path: self.path@, query: self.query@, cookie: text_opt(self.cookie) }
    }
}

impl View for OutRequest {
    type V = OutRequestView;

    open spec fn view(&self) -> OutRequestView {
        OutRequestView {
            method: self.method,
            uri: self.uri@,
            headers: pair_texts(self.headers@),
            body: self.body@,
        }
    }
}

impl View for Response {
    type V = ResponseView;

    open spec fn view(&self) -> ResponseView {
        ResponseView {
            status: self.status,
            headers: pair_texts(self.headers@),
            body: self.body@,
        }
    }
}

/// Appends one pair of texts.
pub fn add_pair(pairs: &mut Vec<(String, String)>, name: &str, value: &str)
    ensures
        pair_texts(final(pairs)@) == pair_texts(old(pairs)@).push((name@, value@)),
{
    pairs.push((name.to_owned(), value.to_owned()));
    assert(pair_texts(pairs@) == pair_texts(old(pairs)@).push((name@, value@)));
}

/// What the first of `pairs` with the name `name` holds.
pub open spec fn value_of(pairs: Seq<(Seq<char>, Seq<char>)>, name: Seq<char>) -> Option<Seq<char>>
    decreases pairs.len(),
{
    if pairs.len() == 0 {
        None
    } else if pairs[0].0 == name {
        Some(pairs[0].1)
    } else {
        value_of(pairs.skip(1), name)
    }
}

/// What the first of `pairs` with the name `name` holds.
pub fn find_value(pairs: &Vec<(String, String)>, name: &str) -> (r: Option<String>)
    ensures
        text_opt(r) == value_of(pair_texts(pairs@), name@),
{
    let mut i: usize = 0;
    assert(pair_texts(pairs@).skip(0) == pair_texts(pairs@));
    while i < pairs.len()
        invariant
            i <= pairs@.len(),
            value_of(pair_texts(pairs@).skip(i as int), name@) == value_of(
                pair_texts(pairs@),
                name@,
            ),
        decreases pairs@.len() - i,
    {
        let ghost rest = pair_texts(pairs@).skip(i as int);
        if same_text(pairs[i].0.as_str(), name) {
            return Some(pairs[i].1.clone());
        }
        assert(rest.skip(1) == pair_texts(pairs@).skip(i + 1));
        i = i + 1;
    }
    None
}

/// A temporary redirect to `location` that no cache keeps.
pub open spec fn redirect_view(location: Seq<char>) -> ResponseView {
    ResponseView {
        status: 302,
        headers: seq![("location"@, location), ("cache-control"@, "no-store"@)],
        body: seq![],
    }
}

/// A temporary redirect that sets a cookie on the way.
pub open spec fn redirect_with_cookie_view(
    location: Seq<char>,
    set_cookie: Seq<char>,
) -> ResponseView {
    ResponseView {
        status: 302,
        headers: seq![
            ("location"@, location),
            ("set-cookie"@, set_cookie),
            ("cache-control"@, "no-store"@),
        ],
        body: seq![],
    }
}

/// A plain-text response that no cache keeps.
pub open spec fn text_view(status: u16, body: Seq<char>) -> ResponseView {
    ResponseView {
        status,
        headers: seq![
            ("content-type"@, "text/plain; charset=utf-8"@),
            ("cache-control"@, "no-store"@),
        ],
        body,
    }
}

/// Redirects the browser to `location`. Never fails.
pub fn redirect(location: &str) -> (r: Result<Response, AuthError>)
    ensures
        r matches Ok(resp) && resp@ == redirect_view(location@),
{
    let mut headers: Vec<(String, String)> = Vec::new();
    add_pair(&mut headers, "location", location);
    add_pair(&mut headers, "cache-control", "no-store");
    let resp = Response { status: 302, headers, body: String::new() };
    assert(resp@.headers == redirect_view(location@).headers);
    Ok(resp)
}

/// Redirects the browser to `location` and sets a cookie. Never fails.
pub fn redirect_with_cookie(location: &str, set_cookie: &str) -> (r: Result<Response, AuthError>)
    ensures
        r matches Ok(resp) && resp@ == redirect_with_cookie_view(location@, set_cookie@),
{
    let mut headers: Vec<(String, String)> = Vec::new();
    add_pair(&mut headers, "location", location);
    add_pair(&mut headers, "set-cookie", set_cookie);
    add_pair(&mut headers, "cache-control", "no-store");
    let resp = Response { status: 302, headers, body: String::new() };
    assert(resp@.headers == redirect_with_cookie_view(location@, set_cookie@).headers);
    Ok(resp)
}

/// A plain-text response.
pub fn text(status: u16, body: String) -> (r: Response)
    ensures
        r@ == text_view(status, body@),
{
    let mut headers: Vec<(String, String)> = Vec::new();
    add_pair(&mut headers, "content-type", "text/plain; charset=utf-8");
    add_pair(&mut headers, "cache-control", "no-store");
    let resp = Response { status, headers, body };
    assert(resp@.headers == text_view(status, body@).headers);
    resp
}

} // verus!
