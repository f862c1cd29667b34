//! Query strings and form bodies: `application/x-www-form-urlencoded`.

use crate::http::{find_value, pair_texts, value_of};
use crate::text::text_opt;
use vstd::prelude::*;
use vstd::utf8::encode_utf8;

verus! {

/// Does a byte stand for itself in a form?
pub open spec fn form_unreserved(b: u8) -> bool {
    let c = b as char;
    'A' <= c <= 'Z' || 'a' <= c <= 'z' || '0' <= c <= '9' || c == '*' || c == '-' || c == '.' || c
        == '_'
}

/// The hexadecimal digit, in upper case, for a number below sixteen.
pub open spec fn hex_digit(v: int) -> char {
    if v < 10 {
        ('0' as int + v) as char
    } else {
        ('A' as int + (v - 10)) as char
    }
}

/// How a form writes one byte.
pub open spec fn form_byte(b: u8) -> Seq<char> {
    if form_unreserved(b) {
        seq![b as char]
    } else if b == 0x20 {
        seq!['+']
    } else {
        seq!['%', hex_digit(b as int / 16), hex_digit(b as int % 16)]
    }
}

/// How a form writes bytes.
pub open spec fn form_bytes(bytes: Seq<u8>) -> Seq<char>
    decreases bytes.len(),
{
    if bytes.len() == 0 {
        seq![]
    } else {
        form_bytes(bytes.drop_last()) + form_byte(bytes.last())
    }
}

/// How a form writes one pair.
pub open spec fn form_pair(pair: (Seq<char>, Seq<char>)) -> Seq<char> {
    form_bytes(encode_utf8(pair.0)) + seq!['='] + form_bytes(encode_utf8(pair.1))
}

/// How a form writes pairs: one after the other, an ampersand between neighbours.
pub open spec fn form_query(pairs: Seq<(Seq<char>, Seq<char>)>) -> Seq<char>
    decreases pairs.len(),
{
    if pairs.len() == 0 {
        seq![]
    } else if pairs.len() == 1 {
        form_pair(pairs[0])
    } else {
        form_query(pairs.drop_last()) + seq!['&'] + form_pair(pairs.last())
    }
}

/// The pairs that a query string holds.
pub uninterp spec fn form_pairs(query: Seq<char>) -> Seq<(Seq<char>, Seq<char>)>;

/// `form_urlencoded::Serializer`: the pairs in order, names and values in UTF-8, a space as a plus
/// sign, every other byte but letters, digits and `*-._` as a percent sign and two digits.
#[verifier::external_body]
pub(crate) fn to_query(pairs: &Vec<(String, String)>) -> (r: String)
    ensures
        r@ == form_query(pair_texts(pairs@)),
{
    form_urlencoded::Serializer::new(String::new()).extend_pairs(pairs).finish()
}

/// `form_urlencoded::parse`. What it reads out of a query string in general is left to the name;
/// out of one that the serializer wrote it reads the pairs that were written.
#[verifier::external_body]
pub(crate) fn from_query(query: &str) -> (r: Vec<(String, String)>)
    ensures
        pair_texts(r@) == form_pairs(query@),
        forall|pairs: Seq<(Seq<char>, Seq<char>)>| #[trigger]
            form_query(pairs) == query@ ==> pair_texts(r@) == pairs,
{
    form_urlencoded::parse(query.as_bytes()).into_owned().collect()
}

/// The value of the parameter `key` in a query string. Where the query string was written from
/// pairs, it is the value that they give `key`.
pub fn query_param(query: &str, key: &str) -> (r: Option<String>)
    ensures
        text_opt(r) == value_of(form_pairs(query@), key@),
        forall|pairs: Seq<(Seq<char>, Seq<char>)>| #[trigger]
            form_query(pairs) == query@ ==> text_opt(r) == value_of(pairs, key@),
{
    find_value(&from_query(query), key)
}

} // verus!
