//! Base64url, randomness, the clock, cookies.

use crate::error::{fault, AuthError, AuthErrorView, ErrorKind};
use crate::text::{
    chars_of, find_char, first_at, law_split_glued, law_split_plain, lemma_first_at_unique,
    same_text, split, text_of, trim, trim_bounds, trim_end, trim_start,
};
use base64::Engine;
use std::time::{Duration, SystemTime, SystemTimeError};
use vstd::prelude::*;

verus! {

/// The base64url symbol for a number below 64.
pub open spec fn b64url_symbol(v: int) -> char {
    if v < 26 {
        ('A' as int + v) as char
    } else if v < 52 {
        ('a' as int + (v - 26)) as char
    } else if v < 62 {
        ('0' as int + (v - 52)) as char
    } else if v == 62 {
        '-'
    } else {
        '_'
    }
}

/// The byte at `k`, or zero past the end.
pub open spec fn byte_or_zero(bytes: Seq<u8>, k: int) -> int {
    if k < bytes.len() {
        bytes[k] as int
    } else {
        0
    }
}

/// The six bits that symbol `i` stands for: four symbols cover three bytes.
pub open spec fn sextet(bytes: Seq<u8>, i: int) -> int {
    let a = byte_or_zero(bytes, 3 * (i / 4));
    let b = byte_or_zero(bytes, 3 * (i / 4) + 1);
    let c = byte_or_zero(bytes, 3 * (i / 4) + 2);
    if i % 4 == 0 {
        a / 4
    } else if i % 4 == 1 {
        (a % 4) * 16 + b / 16
    } else if i % 4 == 2 {
        (b % 16) * 4 + c / 64
    } else {
        c % 64
    }
}

/// How many symbols `n` bytes take without padding.
pub open spec fn b64url_len(n: nat) -> nat {
    (4 * n + 2) / 3
}

/// The base64url text of `bytes`, without padding.
pub open spec fn b64url_text(bytes: Seq<u8>) -> Seq<char> {
    Seq::new(b64url_len(bytes.len()), |i: int| b64url_symbol(sextet(bytes, i)))
}

/// Is `c` one of the 64 base64url symbols?
pub open spec fn is_b64url_symbol(c: char) -> bool {
    'A' <= c <= 'Z' || 'a' <= c <= 'z' || '0' <= c <= '9' || c == '-' || c == '_'
}

/// What the base64 decoder says of a text that is not base64url.
pub uninterp spec fn base64url_complaint(s: Seq<char>) -> Seq<char>;

/// `Engine::encode` of the engine `URL_SAFE_NO_PAD`: the base64url text of `bytes`, with the alphabet
/// for URLs and without padding. The text must fit in memory.
#[verifier::external_body]
fn encode_url_safe(bytes: &[u8]) -> (r: String)
    requires
        b64url_len(bytes@.len()) <= isize::MAX,
    ensures
        r@ == b64url_text(bytes@),
{
    base64::engine::general_purpose::URL_SAFE_NO_PAD.encode(bytes)
}

/// The base64url text of `bytes`. It must fit in memory.
pub fn b64url(bytes: &[u8]) -> (r: String)
    requires
        b64url_len(bytes@.len()) <= isize::MAX,
    ensures
        r@ == b64url_text(bytes@),
{
    encode_url_safe(bytes)
}

/// `Engine::decode` of the engine `URL_SAFE_NO_PAD`. It accepts just the texts that the encoder
/// produces (no padding, no stray bits in the last symbol) and gives back the bytes they stand
/// for; of any other text it complains.
#[verifier::external_body]
fn decode_url_safe(s: &str) -> (r: Result<Vec<u8>, String>)
    ensures
        r matches Ok(bytes) ==> b64url_text(bytes@) == s@,
        r matches Err(e) ==> e@ == base64url_complaint(s@) && forall|bytes: Seq<u8>| #[trigger]
            b64url_text(bytes) != s@,
{
    base64::engine::general_purpose::URL_SAFE_NO_PAD.decode(s).map_err(|e| e.to_string())
}

/// The refusal of a text that is not base64url.
pub open spec fn base64_fault(s: Seq<char>) -> AuthErrorView {
    fault(ErrorKind::Base64, "base64url decode: "@ + base64url_complaint(s))
}

/// Is `s` the base64url text of some bytes?
pub open spec fn is_b64url(s: Seq<char>) -> bool {
    exists|bytes: Seq<u8>| #[trigger] b64url_text(bytes) == s
}

/// The bytes whose base64url text is `s`.
pub open spec fn b64url_bytes(s: Seq<char>) -> Seq<u8> {
    choose|bytes: Seq<u8>| #[trigger] b64url_text(bytes) == s
}

/// The outcome of decoding `s`.
pub open spec fn b64url_decoded(s: Seq<char>) -> Result<Seq<u8>, AuthErrorView> {
    if is_b64url(s) {
        Ok(b64url_bytes(s))
    } else {
        Err(base64_fault(s))
    }
}

/// The bytes that a base64url text stands for.
pub fn b64url_decode(s: &str) -> (r: Result<Vec<u8>, AuthError>)
    ensures
        r is Ok <==> is_b64url(s@),
        r matches Ok(bytes) ==> b64url_text(bytes@) == s@ && bytes@ == b64url_bytes(s@),
        r matches Err(e) ==> e@ == base64_fault(s@),
{
    match decode_url_safe(s) {
        Ok(bytes) => {
            proof {
                law_b64url_injective(bytes@, b64url_bytes(s@));
            }
            Ok(bytes)
        },
        Err(e) => Err(
            AuthError::with_detail(ErrorKind::Base64, "base64url decode: ", e.as_str()),
        ),
    }
}

proof fn lemma_symbol_injective(v: int, w: int)
    requires
        0 <= v < 64,
        0 <= w < 64,
        b64url_symbol(v) == b64url_symbol(w),
    ensures
        v == w,
{
}

proof fn lemma_sextet_range(bytes: Seq<u8>, i: int)
    requires
        0 <= i,
    ensures
        0 <= sextet(bytes, i) < 64,
{
}

/// Different bytes have different base64url texts, so that decoding undoes encoding.
pub proof fn law_b64url_injective(a: Seq<u8>, b: Seq<u8>)
    requires
        b64url_text(a) == b64url_text(b),
    ensures
        a == b,
{
    assert(b64url_text(a).len() == b64url_len(a.len()));
    assert(b64url_text(b).len() == b64url_len(b.len()));
    assert(a.len() == b.len());
    assert forall|i: int| 0 <= i < b64url_len(a.len()) implies sextet(a, i) == sextet(b, i) by {
        assert(b64url_text(a)[i] == b64url_symbol(sextet(a, i)));
        assert(b64url_text(b)[i] == b64url_symbol(sextet(b, i)));
        lemma_sextet_range(a, i);
        lemma_sextet_range(b, i);
        lemma_symbol_injective(sextet(a, i), sextet(b, i));
    }
    assert forall|k: int| 0 <= k < a.len() implies a[k] == b[k] by {
        let g = k / 3;
        assert(sextet(a, 4 * g) == sextet(b, 4 * g));
        assert(sextet(a, 4 * g + 1) == sextet(b, 4 * g + 1));
        if k % 3 >= 1 {
            assert(sextet(a, 4 * g + 2) == sextet(b, 4 * g + 2));
        }
        if k % 3 == 2 {
            assert(sextet(a, 4 * g + 3) == sextet(b, 4 * g + 3));
        }
        assert((4 * g) / 4 == g && (4 * g + 1) / 4 == g && (4 * g + 2) / 4 == g && (4 * g + 3) / 4
            == g);
        assert(3 * g <= k < 3 * g + 3);
    }
    assert(a == b);
}

/// A base64url text is made of the 64 symbols alone: none of them needs escaping in a URL or in a
/// cookie.
pub proof fn law_b64url_alphabet(bytes: Seq<u8>)
    ensures
        forall|i: int|
            0 <= i < b64url_text(bytes).len() ==> is_b64url_symbol(#[trigger] b64url_text(bytes)[i]),
{
    assert forall|i: int| 0 <= i < b64url_text(bytes).len() implies is_b64url_symbol(
        #[trigger] b64url_text(bytes)[i],
    ) by {
        lemma_sextet_range(bytes, i);
    }
}

/// `n` bytes of entropy from `getrandom::getrandom`, or what it says where it has none. Which
/// bytes come is left open.
#[verifier::external_body]
fn draw(n: usize) -> (r: Result<Vec<u8>, String>)
    requires
        n <= isize::MAX,
    ensures
        r matches Ok(bytes) ==> bytes@.len() == n,
{
    let mut buf = vec![0u8; n];
    match getrandom::getrandom(&mut buf) {
        Ok(()) => Ok(buf),
        Err(e) => Err(e.to_string()),
    }
}

/// Are `bytes` what some draw of `n` bytes of entropy gives? Which draw it is, chance decides.
pub closed spec fn entropy_gives(n: usize, bytes: Seq<u8>) -> bool {
    exists|outcome: Result<Vec<u8>, String>| #[trigger]
        call_ensures(draw, (n,), outcome) && outcome is Ok && outcome->Ok_0@ == bytes
}

/// Is `detail` what some draw of `n` bytes of entropy says where it has none?
pub closed spec fn entropy_refuses(n: usize, detail: Seq<char>) -> bool {
    exists|outcome: Result<Vec<u8>, String>| #[trigger]
        call_ensures(draw, (n,), outcome) && outcome is Err && outcome->Err_0@ == detail
}

/// Is this an outcome of asking for `n` bytes of entropy: the bytes that were drawn, or the refusal?
pub open spec fn entropy_outcome(n: usize, r: Result<Seq<u8>, AuthErrorView>) -> bool {
    match r {
        Ok(bytes) => bytes.len() == n && entropy_gives(n, bytes),
        Err(e) => exists|detail: Seq<char>| #[trigger]
            entropy_refuses(n, detail) && e == entropy_fault(detail),
    }
}

/// What an outcome with bytes says.
pub open spec fn bytes_outcome(r: Result<Vec<u8>, AuthError>) -> Result<Seq<u8>, AuthErrorView> {
    match r {
        Ok(bytes) => Ok(bytes@),
        Err(e) => Err(e@),
    }
}

/// The refusal where no entropy can be had.
pub open spec fn entropy_fault(detail: Seq<char>) -> AuthErrorView {
    fault(ErrorKind::Entropy, "getrandom: "@ + detail)
}

/// The outcome of asking for entropy: the bytes, or the refusal.
pub fn drawn(outcome: Result<Vec<u8>, String>) -> (r: Result<Vec<u8>, AuthError>)
    ensures
        outcome matches Ok(bytes) ==> r == Ok::<Vec<u8>, AuthError>(bytes),
        outcome matches Err(e) ==> r matches Err(f) && f@ == entropy_fault(e@),
{
    match outcome {
        Ok(bytes) => Ok(bytes),
        Err(e) => Err(AuthError::with_detail(ErrorKind::Entropy, "getrandom: ", e.as_str())),
    }
}

/// `n` cryptographically random bytes.
pub fn random_bytes(n: usize) -> (r: Result<Vec<u8>, AuthError>)
    requires
        n <= isize::MAX,
    ensures
        entropy_outcome(n, bytes_outcome(r)),
{
    let outcome = draw(n);
    assert(call_ensures(draw, (n,), outcome));
    assert(outcome is Err ==> entropy_refuses(n, outcome->Err_0@));
    drawn(outcome)
}

/// A token of `n` bytes of entropy that needs no escaping in a URL.
pub fn random_token(n: usize) -> (r: Result<String, AuthError>)
    requires
        b64url_len(n as nat) <= isize::MAX,
    ensures
        r matches Ok(token) ==> exists|bytes: Seq<u8>|
            bytes.len() == n && entropy_gives(n, bytes) && token@ == #[trigger] b64url_text(bytes),
        r matches Err(e) ==> exists|detail: Seq<char>| #[trigger]
            entropy_refuses(n, detail) && e@ == entropy_fault(detail),
{
    match random_bytes(n) {
        Ok(bytes) => Ok(b64url(bytes.as_slice())),
        Err(e) => Err(e),
    }
}

/// `std::time::SystemTime`, a reading of the clock, carried through unread.
#[verifier::external_type_specification]
#[verifier::external_body]
pub struct ExSystemTime(SystemTime);

/// `std::time::SystemTimeError`, the refusal of a reading before the epoch, carried through unread.
#[verifier::external_type_specification]
#[verifier::external_body]
pub struct ExSystemTimeError(SystemTimeError);

/// `SystemTime::now` reads the clock. Nothing is said of what it shows.
pub assume_specification[ SystemTime::now ]() -> SystemTime
;

/// `SystemTime::duration_since` the Unix epoch, or the refusal where `t` lies before it.
#[verifier::external_body]
fn since_epoch(t: SystemTime) -> Result<Duration, SystemTimeError> {
    t.duration_since(std::time::UNIX_EPOCH)
}

/// `Duration::as_secs`, the whole seconds of a duration. A duration is opaque here, so nothing is
/// said of their number.
pub assume_specification[ Duration::as_secs ](d: &Duration) -> u64
;

/// What the clock shows: the seconds since the Unix epoch, or zero where it stands before it.
pub fn clock_secs(since_epoch: Option<u64>) -> (r: u64)
    ensures
        since_epoch matches Some(secs) ==> r == secs,
        since_epoch is None ==> r == 0,
{
    match since_epoch {
        Some(secs) => secs,
        None => 0,
    }
}

/// Is `r` what some reading of the clock comes to: what `Duration::as_secs` gives for the time that
/// [`since_epoch`] finds, or zero where the reading lies before the epoch? Which reading it is, the
/// clock decides.
pub closed spec fn clock_reads(r: u64) -> bool {
    exists|t: SystemTime, outcome: Result<Duration, SystemTimeError>|
        {
            &&& call_ensures(SystemTime::now, (), t)
            &&& #[trigger] call_ensures(since_epoch, (t,), outcome)
            &&& match outcome {
                Ok(d) => call_ensures(Duration::as_secs, (&d,), r),
                Err(_) => r == 0,
            }
        }
}

/// Seconds since the Unix epoch, as the clock shows them; zero where it stands before the epoch.
pub fn now_secs() -> (r: u64)
    ensures
        clock_reads(r),
{
    let t = SystemTime::now();
    let outcome = since_epoch(t);
    assert(call_ensures(since_epoch, (t,), outcome));
    let elapsed = match outcome {
        Ok(d) => Some(d.as_secs()),
        Err(_) => None,
    };
    clock_secs(elapsed)
}

/// The value that one piece of a `Cookie` header gives the cookie `name`, where it is about it.
pub open spec fn cookie_piece(piece: Seq<char>, name: Seq<char>) -> Option<Seq<char>> {
    let eq = first_at(piece, '=');
    if eq < piece.len() && trim(piece.take(eq)) == name {
        Some(trim(piece.skip(eq + 1)))
    } else {
        None
    }
}

/// The value that the first of `pieces` about the cookie `name` gives it.
pub open spec fn cookie_among(pieces: Seq<Seq<char>>, name: Seq<char>) -> Option<Seq<char>>
    decreases pieces.len(),
{
    if pieces.len() == 0 {
        None
    } else {
        match cookie_piece(pieces[0], name) {
            Some(v) => Some(v),
            None => cookie_among(pieces.skip(1), name),
        }
    }
}

/// The value of the cookie `name` in a `Cookie` header.
pub open spec fn cookie(header: Seq<char>, name: Seq<char>) -> Option<Seq<char>> {
    cookie_among(split(header, ';'), name)
}

/// The value of a single cookie out of a `Cookie` header.
pub fn cookie_value<'a>(cookie_header: &'a str, name: &str) -> (r: Option<&'a str>)
    ensures
        r is Some <==> cookie(cookie_header@, name@) is Some,
        r matches Some(v) ==> cookie(cookie_header@, name@) == Some(v@),
{
    let chars = chars_of(cookie_header);
    let n = chars.len();
    let mut start: usize = 0;
    assert(chars@.skip(0) == chars@);
    loop
        invariant
            n == chars@.len(),
            chars@ == cookie_header@,
            start <= n,
            cookie_among(split(chars@.skip(start as int), ';'), name@) == cookie(
                cookie_header@,
                name@,
            ),
        decreases n - start,
    {
        let ghost rest = chars@.skip(start as int);
        assert(rest == chars@.subrange(start as int, n as int));
        let end = find_char(&chars, start, n, ';');
        let ghost piece = rest.take(end - start);
        assert(piece == chars@.subrange(start as int, end as int));
        assert(split(rest, ';')[0] == piece) by {
            if end == n {
                assert(piece == rest);
            }
        }
        let eq = find_char(&chars, start, end, '=');
        if eq < end {
            assert(piece.take(eq - start) == chars@.subrange(start as int, eq as int));
            assert(piece.skip(eq - start + 1) == chars@.subrange(eq + 1, end as int));
            let (lo, hi) = trim_bounds(&chars, start, eq);
            let key = text_of(&chars, lo, hi);
            if same_text(key.as_str(), name) {
                let (from, to) = trim_bounds(&chars, eq + 1, end);
                return Some(cookie_header.substring_char(from, to));
            }
        }
        assert(cookie_piece(piece, name@) is None);
        if end == n {
            assert(split(rest, ';').skip(1).len() == 0);
            assert(cookie_among(split(rest, ';').skip(1), name@) is None);
            return None;
        }
        assert(rest.skip(end - start + 1) == chars@.skip(end + 1));
        assert(split(rest, ';').skip(1) == split(chars@.skip(end + 1), ';'));
        start = end + 1;
    }
}

proof fn lemma_cookie_among_two(a: Seq<Seq<char>>, b: Seq<Seq<char>>, name: Seq<char>)
    ensures
        cookie_among(a + b, name) == match cookie_among(a, name) {
            Some(v) => Some(v),
            None => cookie_among(b, name),
        },
    decreases a.len(),
{
    if a.len() == 0 {
        assert(a + b == b);
    } else {
        lemma_cookie_among_two(a.skip(1), b, name);
        assert((a + b).skip(1) == a.skip(1) + b);
    }
}

/// A `Cookie` header gives a cookie the value that its first part gives it, or else the one that
/// the rest does: other cookies are in nobody's way.
pub proof fn law_cookies_apart(first: Seq<char>, rest: Seq<char>, name: Seq<char>)
    ensures
        cookie(first.push(';') + rest, name) == match cookie(first, name) {
            Some(v) => Some(v),
            None => cookie(rest, name),
        },
{
    law_split_glued(first, rest, ';');
    lemma_cookie_among_two(split(first, ';'), split(rest, ';'), name);
}

/// What a browser sends back of a cookie with a base64url value is that value.
pub proof fn law_cookie_sent_back(bytes: Seq<u8>, name: Seq<char>)
    requires
        name.len() > 0,
        forall|i: int| 0 <= i < name.len() ==> name[i] != '=' && name[i] != ';',
        trim(name) == name,
    ensures
        cookie(name + "="@ + b64url_text(bytes), name) == Some(b64url_text(bytes)),
{
    let v = b64url_text(bytes);
    let header = name + "="@ + v;
    reveal_strlit("=");
    law_b64url_alphabet(bytes);
    assert forall|i: int| 0 <= i < header.len() implies header[i] != ';' by {
        if i > name.len() {
            assert(is_b64url_symbol(v[i - name.len() - 1]));
        }
    }
    law_split_plain(header, ';');
    lemma_first_at_unique(header, '=', name.len() as int);
    assert(header.take(name.len() as int) == name);
    assert(header.skip((name.len() + 1) as int) == v);
    assert(trim_start(v) == v) by {
        if v.len() > 0 {
            assert(is_b64url_symbol(v[0]));
        }
    }
    assert(trim_end(v) == v) by {
        if v.len() > 0 {
            assert(is_b64url_symbol(v[v.len() - 1]));
        }
    }
    assert(cookie_piece(header, name) == Some(v));
    assert(split(header, ';')[0] == header);
}

/// Decoding undoes encoding.
pub proof fn law_b64url_read_back(bytes: Seq<u8>)
    ensures
        b64url_decoded(b64url_text(bytes)) == Ok::<Seq<u8>, AuthErrorView>(bytes),
{
    assert(is_b64url(b64url_text(bytes)));
    law_b64url_injective(b64url_bytes(b64url_text(bytes)), bytes);
}

/// A reading of the clock is a whole number of seconds that `Duration::as_secs` gave for a time that
/// [`since_epoch`] found, or zero for a reading before the epoch, and nothing else.
proof fn law_clock_reads(r: u64)
    requires
        clock_reads(r),
    ensures
        exists|t: SystemTime, outcome: Result<Duration, SystemTimeError>|
            call_ensures(SystemTime::now, (), t) && #[trigger] call_ensures(
                since_epoch,
                (t,),
                outcome,
            ) && (match outcome {
                Ok(d) => call_ensures(Duration::as_secs, (&d,), r),
                Err(_) => r == 0,
            }),
{
}

/// Entropy is what [`draw`] gave, byte for byte, and a refusal of it what [`draw`] said.
proof fn law_entropy_is_drawn(n: usize, bytes: Seq<u8>, detail: Seq<char>)
    ensures
        entropy_gives(n, bytes) ==> exists|outcome: Result<Vec<u8>, String>| #[trigger]
            call_ensures(draw, (n,), outcome) && outcome is Ok && outcome->Ok_0@ == bytes,
        entropy_refuses(n, detail) ==> exists|outcome: Result<Vec<u8>, String>| #[trigger]
            call_ensures(draw, (n,), outcome) && outcome is Err && outcome->Err_0@ == detail,
        entropy_outcome(n, Ok(bytes)) <==> bytes.len() == n && entropy_gives(n, bytes),
        forall|e: AuthErrorView| #[trigger]
            entropy_outcome(n, Err(e)) ==> exists|why: Seq<char>| #[trigger]
                entropy_refuses(n, why) && e == fault(ErrorKind::Entropy, "getrandom: "@ + why),
        entropy_fault(detail) == (AuthErrorView {
            kind: ErrorKind::Entropy,
            message: "getrandom: "@ + detail,
        }),
{
}

} // verus!
