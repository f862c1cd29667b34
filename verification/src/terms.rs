//! What the words mean that the contracts are written in, each by the relation that it stands in to
//! the characters, pairs and numbers it speaks of.

use crate::http::value_of;
use crate::json::{member, member_text};
use crate::jwks::{elapsed, is_fresh, key_for, max_age, max_age_directive, JwkView, TenantMetaView};
use crate::text::{
    all_digits, decimal, digits_value, has_prefix, has_suffix, is_digit, is_space,
    join, law_split_glued, law_split_plain, lemma_first_at, lemma_first_at_unique, number, split,
    trim, trim_end, trim_start,
};
use crate::util::{
    b64url_decoded, b64url_text, base64url_complaint, cookie, cookie_among, cookie_piece,
};
use crate::error::{ErrorKind};
use vstd::prelude::*;

verus! {

// ---------------------------------------------------------------------------
// Texts
// ---------------------------------------------------------------------------

/// A text has a prefix if and only if it is that prefix with something after it.
pub proof fn law_prefix(s: Seq<char>, prefix: Seq<char>, rest: Seq<char>)
    ensures
        has_prefix(prefix + rest, prefix),
        has_prefix(s, prefix) ==> s == prefix + s.skip(prefix.len() as int),
{
    assert((prefix + rest).take(prefix.len() as int) == prefix);
    if has_prefix(s, prefix) {
        assert(s == s.take(prefix.len() as int) + s.skip(prefix.len() as int));
    }
}

/// A text has a suffix if and only if it is that suffix with something before it.
pub proof fn law_suffix(s: Seq<char>, suffix: Seq<char>, rest: Seq<char>)
    ensures
        has_suffix(rest + suffix, suffix),
        has_suffix(s, suffix) ==> s == s.take(s.len() - suffix.len()) + suffix,
{
    assert((rest + suffix).skip((rest + suffix).len() - suffix.len()) == suffix);
    if has_suffix(s, suffix) {
        assert(s == s.take(s.len() - suffix.len()) + s.skip(s.len() - suffix.len()));
    }
}

/// To join texts is to put the separator between neighbours.
pub proof fn law_join(parts: Seq<Seq<char>>, last: Seq<char>, sep: Seq<char>)
    ensures
        join(seq![], sep) == Seq::<char>::empty(),
        join(seq![last], sep) == last,
        parts.len() > 0 ==> join(parts.push(last), sep) == join(parts, sep) + sep + last,
{
    assert(parts.push(last).drop_last() == parts);
}

proof fn lemma_join_two(a: Seq<Seq<char>>, b: Seq<Seq<char>>, sep: Seq<char>)
    requires
        a.len() > 0,
        b.len() > 0,
    ensures
        join(a + b, sep) == join(a, sep) + sep + join(b, sep),
    decreases b.len(),
{
    let last = b.last();
    if b.len() == 1 {
        assert(a + b == a.push(last));
        assert(a.push(last).drop_last() == a);
        assert(b == seq![last]);
    } else {
        let init = b.drop_last();
        lemma_join_two(a, init, sep);
        assert((a + b).drop_last() == a + init);
        assert(join(a + b, sep) == join(a, sep) + sep + join(b, sep));
    }
}

/// The pieces of a text are free of the separator, and joined by it they are the text again. There
/// is one at the least.
pub proof fn law_split_into_pieces(s: Seq<char>, c: char)
    ensures
        split(s, c).len() > 0,
        join(split(s, c), seq![c]) == s,
        forall|i: int| 0 <= i < split(s, c).len() ==> !(#[trigger] split(s, c)[i]).contains(c),
    decreases s.len(),
{
    lemma_first_at(s, c);
    let i = crate::text::first_at(s, c);
    if i < s.len() {
        let a = s.take(i);
        let b = s.skip(i + 1);
        law_split_into_pieces(b, c);
        assert(s == a.push(c) + b);
        assert(!a.contains(c));
        law_split_plain(a, c);
        law_split_glued(a, b, c);
        lemma_join_two(seq![a], split(b, c), seq![c]);
        assert(join(seq![a], seq![c]) == a);
        assert(s == a + seq![c] + b);
        assert forall|k: int| 0 <= k < split(s, c).len() implies !(#[trigger] split(s, c)[k]).contains(
            c,
        ) by {
            if k > 0 {
                assert(split(s, c)[k] == split(b, c)[k - 1]);
            }
        }
    } else {
        assert(!s.contains(c));
        law_split_plain(s, c);
    }
}

/// The white space of Unicode, by code point.
pub open spec fn white(c: char) -> bool {
    let n = c as u32;
    ||| n == 9 || n == 10 || n == 11 || n == 12 || n == 13 || n == 32
    ||| n == 0x85 || n == 0xa0 || n == 0x1680
    ||| 0x2000 <= n <= 0x200a
    ||| n == 0x2028 || n == 0x2029 || n == 0x202f || n == 0x205f || n == 0x3000
}

/// Are all characters of `s` white space?
pub open spec fn all_white(s: Seq<char>) -> bool {
    forall|i: int| 0 <= i < s.len() ==> white(#[trigger] s[i])
}

/// Has `s` no white space at either end?
pub open spec fn bare(s: Seq<char>) -> bool {
    s.len() > 0 ==> !white(s[0]) && !white(s[s.len() - 1])
}

proof fn lemma_trim_start(pre: Seq<char>, core: Seq<char>)
    requires
        all_white(pre),
        core.len() > 0 ==> !white(core[0]),
    ensures
        trim_start(pre + core) == core,
    decreases pre.len(),
{
    let s = pre + core;
    if pre.len() == 0 {
        assert(s == core);
    } else {
        assert(white(pre[0]));
        assert(is_space(s[0]));
        assert(s.skip(1) == pre.skip(1) + core);
        assert forall|i: int| 0 <= i < pre.skip(1).len() implies white(#[trigger] pre.skip(1)[i]) by {
            assert(white(pre[i + 1]));
        }
        lemma_trim_start(pre.skip(1), core);
    }
}

proof fn lemma_trim_end(core: Seq<char>, post: Seq<char>)
    requires
        all_white(post),
        core.len() > 0 ==> !white(core[core.len() - 1]),
    ensures
        trim_end(core + post) == core,
    decreases post.len(),
{
    let s = core + post;
    if post.len() == 0 {
        assert(s == core);
    } else {
        assert(white(post[post.len() - 1]));
        assert(is_space(s.last()));
        assert(s.drop_last() == core + post.drop_last());
        assert forall|i: int| 0 <= i < post.drop_last().len() implies white(
            #[trigger] post.drop_last()[i],
        ) by {
            assert(white(post[i]));
        }
        lemma_trim_end(core, post.drop_last());
    }
}

/// Trimming takes the white space off both ends, and nothing else.
pub proof fn law_trim(pre: Seq<char>, core: Seq<char>, post: Seq<char>)
    requires
        all_white(pre),
        all_white(post),
        bare(core),
    ensures
        trim(pre + core + post) == core,
{
    if core.len() > 0 {
        assert(pre + core + post == pre + (core + post));
        lemma_trim_start(pre, core + post);
        lemma_trim_end(core, post);
    } else {
        let all = pre + core + post;
        assert(all == (pre + post) + core);
        assert forall|i: int| 0 <= i < (pre + post).len() implies white(#[trigger] (pre + post)[i]) by {
            if i >= pre.len() {
                assert(white(post[i - pre.len()]));
            } else {
                assert(white(pre[i]));
            }
        }
        lemma_trim_start(pre + post, core);
        lemma_trim_end(core, Seq::<char>::empty());
        assert(core + Seq::<char>::empty() == core);
    }
}

proof fn lemma_trim_start_splits(s: Seq<char>)
    ensures
        trim_start(s).len() <= s.len(),
        s == s.take(s.len() - trim_start(s).len()) + trim_start(s),
        all_white(s.take(s.len() - trim_start(s).len())),
        trim_start(s).len() > 0 ==> !white(trim_start(s)[0]),
    decreases s.len(),
{
    if s.len() > 0 && is_space(s[0]) {
        lemma_trim_start_splits(s.skip(1));
        let rest = trim_start(s);
        let n = s.len() - rest.len();
        let inner = s.skip(1).take(n - 1);
        assert(s == s.take(n) + rest) by {
            assert(s.skip(1) == inner + rest);
            assert(s == seq![s[0]] + s.skip(1));
            assert(s.take(n) == seq![s[0]] + inner);
        }
        assert forall|i: int| 0 <= i < s.take(n).len() implies white(#[trigger] s.take(n)[i]) by {
            if i > 0 {
                assert(s.take(n)[i] == inner[i - 1]);
            }
        }
    } else {
        assert(s.take(0) + s == s);
    }
}

proof fn lemma_trim_end_splits(s: Seq<char>)
    ensures
        trim_end(s).len() <= s.len(),
        s == trim_end(s) + s.skip(trim_end(s).len() as int),
        all_white(s.skip(trim_end(s).len() as int)),
        trim_end(s).len() > 0 ==> !white(trim_end(s).last()) && trim_end(s)[0] == s[0],
    decreases s.len(),
{
    if s.len() > 0 && is_space(s.last()) {
        lemma_trim_end_splits(s.drop_last());
        let kept = trim_end(s);
        let tail = s.skip(kept.len() as int);
        let inner = s.drop_last().skip(kept.len() as int);
        assert(s.drop_last() == kept + inner);
        assert(tail == inner.push(s.last()));
        assert(s == s.drop_last().push(s.last()));
        assert(s == kept + tail);
        assert forall|i: int| 0 <= i < tail.len() implies white(#[trigger] tail[i]) by {
            if i < inner.len() {
                assert(tail[i] == inner[i]);
            }
        }
    } else {
        assert(s == s + s.skip(s.len() as int));
    }
}

/// Every text is white space, then what trimming leaves of it, then white space; and what is left has
/// none at its ends.
pub proof fn law_trim_splits(s: Seq<char>)
    ensures
        bare(trim(s)),
        exists|pre: Seq<char>, post: Seq<char>|
            all_white(pre) && all_white(post) && s == #[trigger] (pre + trim(s) + post),
{
    lemma_trim_start_splits(s);
    let t = trim_start(s);
    lemma_trim_end_splits(t);
    let pre = s.take(s.len() - t.len());
    let post = t.skip(trim(s).len() as int);
    assert(s == pre + trim(s) + post);
}

// ---------------------------------------------------------------------------
// Numbers
// ---------------------------------------------------------------------------

/// A number is written digit by digit, the units last, without a zero in front.
pub proof fn law_decimal(n: nat, d: nat)
    requires
        d < 10,
    ensures
        decimal(d).len() == 1,
        decimal(d)[0] as int == '0' as int + d,
        n > 0 ==> decimal(10 * n + d) == decimal(n) + decimal(d),
{
    if n > 0 {
        assert((10 * n + d) / 10 == n);
        assert((10 * n + d) % 10 == d);
        assert(decimal(n).push(crate::text::digit(d)) == decimal(n) + decimal(d));
    }
}

/// A text is read as a number digit by digit: one digit is its value, and a digit after a number
/// makes ten times as much and the digit, as long as that is in range.
pub proof fn law_number_by_digits(s: Seq<char>, c: char)
    requires
        '0' <= c <= '9',
    ensures
        number(seq![c]) == Some((c as u32 - '0' as u32) as u64),
        s.len() > 0 && s != seq!['+'] ==> number(s.push(c)) == match number(s) {
            Some(n) => if 10 * n + (c as u32 - '0' as u32) <= u64::MAX {
                Some((10 * n + (c as u32 - '0' as u32)) as u64)
            } else {
                None
            },
            None => None,
        },
        number(seq!['+', c]) == number(seq![c]),
{
    let v = (c as u32 - '0' as u32) as nat;
    let one = seq![c];
    assert(one.drop_last() == Seq::<char>::empty());
    assert(digits_value(one.drop_last()) == 0);
    assert(digits_value(one) == v);
    assert(all_digits(one));
    assert(seq!['+', c].skip(1) == one);
    if s.len() > 0 && s != seq!['+'] {
        let body = if s[0] == '+' {
            s.skip(1)
        } else {
            s
        };
        if s[0] == '+' && body.len() == 0 {
            assert(s == seq!['+']);
        }
        let longer = body.push(c);
        assert(s[0] == '+' ==> s.push(c).skip(1) == longer);
        assert(longer.drop_last() == body);
        assert(digits_value(longer) == 10 * digits_value(body) + v);
        assert(all_digits(longer) <==> all_digits(body)) by {
            if all_digits(longer) {
                assert forall|i: int| 0 <= i < body.len() implies is_digit(#[trigger] body[i]) by {
                    assert(longer[i] == body[i]);
                }
            }
            if all_digits(body) {
                assert forall|i: int| 0 <= i < longer.len() implies is_digit(
                    #[trigger] longer[i],
                ) by {
                    if i < body.len() {
                        assert(longer[i] == body[i]);
                    }
                }
            }
        }
    }
}

/// What is no number: nothing, a sign alone, or a text with anything but digits in it, a plus sign in
/// front aside.
pub proof fn law_not_a_number(s: Seq<char>, i: int)
    requires
        s.len() == 0 || s == seq!['+'] || 0 <= i < s.len() && !('0' <= s[i] <= '9') && (s[i] != '+' || i
            > 0),
    ensures
        number(s) is None,
{
    if s == seq!['+'] {
        assert(s.skip(1).len() == 0);
    } else if s.len() > 0 {
        if s[0] == '+' {
            assert(i > 0);
            assert(s.skip(1)[i - 1] == s[i]);
            assert(!is_digit(s.skip(1)[i - 1]));
        } else {
            assert(!is_digit(s[i]));
        }
    }
}

// ---------------------------------------------------------------------------
// Lists
// ---------------------------------------------------------------------------

/// The value of a name is that of the first pair with it; it has none where no pair has it.
pub proof fn law_value_of_first(pairs: Seq<(Seq<char>, Seq<char>)>, name: Seq<char>)
    ensures
        match value_of(pairs, name) {
            Some(v) => exists|i: int| #![trigger pairs[i]]
                0 <= i < pairs.len() && pairs[i] == (name, v) && forall|j: int|
                    0 <= j < i ==> (#[trigger] pairs[j]).0 != name,
            None => forall|i: int| 0 <= i < pairs.len() ==> (#[trigger] pairs[i]).0 != name,
        },
    decreases pairs.len(),
{
    if pairs.len() > 0 {
        if pairs[0].0 == name {
            assert(pairs[0] == (name, pairs[0].1));
        } else {
            let rest = pairs.skip(1);
            law_value_of_first(rest, name);
            match value_of(pairs, name) {
                Some(v) => {
                    let k = choose|k: int| #![trigger rest[k]]
                        0 <= k < rest.len() && rest[k] == (name, v) && forall|j: int|
                            0 <= j < k ==> (#[trigger] rest[j]).0 != name;
                    assert(pairs[k + 1] == (name, v));
                    assert forall|j: int| 0 <= j < k + 1 implies (#[trigger] pairs[j]).0 != name by {
                        if j > 0 {
                            assert(rest[j - 1] == pairs[j]);
                        }
                    }
                },
                None => {
                    assert forall|i: int| 0 <= i < pairs.len() implies (#[trigger] pairs[i]).0
                        != name by {
                        if i > 0 {
                            assert(rest[i - 1] == pairs[i]);
                        }
                    }
                },
            }
        }
    }
}

/// A document has a member if and only if one of that name is among them; the first one counts.
pub proof fn law_member_first(doc: Seq<(Seq<char>, Option<Seq<char>>)>, name: Seq<char>)
    ensures
        match member(doc, name) {
            Some(v) => exists|i: int| #![trigger doc[i]]
                0 <= i < doc.len() && doc[i] == (name, v) && forall|j: int|
                    0 <= j < i ==> (#[trigger] doc[j]).0 != name,
            None => forall|i: int| 0 <= i < doc.len() ==> (#[trigger] doc[i]).0 != name,
        },
        forall|v: Seq<char>| member_text(doc, name) == Some(v) <==> member(doc, name) == Some(Some(v)),
    decreases doc.len(),
{
    if doc.len() > 0 {
        if doc[0].0 == name {
            assert(doc[0] == (name, doc[0].1));
        } else {
            let rest = doc.skip(1);
            law_member_first(rest, name);
            match member(doc, name) {
                Some(v) => {
                    let k = choose|k: int| #![trigger rest[k]]
                        0 <= k < rest.len() && rest[k] == (name, v) && forall|j: int|
                            0 <= j < k ==> (#[trigger] rest[j]).0 != name;
                    assert(doc[k + 1] == (name, v));
                    assert forall|j: int| 0 <= j < k + 1 implies (#[trigger] doc[j]).0 != name by {
                        if j > 0 {
                            assert(rest[j - 1] == doc[j]);
                        }
                    }
                },
                None => {
                    assert forall|i: int| 0 <= i < doc.len() implies (#[trigger] doc[i]).0 != name by {
                        if i > 0 {
                            assert(rest[i - 1] == doc[i]);
                        }
                    }
                },
            }
        }
    }
}

/// The key that a token names is found wherever it is: if any key bears the name, the first that
/// does is found, whatever else it says of itself.
pub proof fn law_named_key_is_found(keys: Seq<JwkView>, id: Seq<char>, i: int)
    requires
        0 <= i < keys.len(),
        keys[i].kid == Some(id),
        forall|j: int| 0 <= j < i ==> (#[trigger] keys[j]).kid != Some(id),
    ensures
        key_for(keys, Some(id)) == Some(keys[i]),
    decreases i,
{
    if i > 0 {
        let rest = keys.skip(1);
        assert(rest[i - 1] == keys[i]);
        assert forall|j: int| 0 <= j < i - 1 implies (#[trigger] rest[j]).kid != Some(id) by {
            assert(rest[j] == keys[j + 1]);
        }
        assert(keys[0].kid != Some(id));
        law_named_key_is_found(rest, id, i - 1);
        assert(key_for(rest, Some(id)) == Some(keys[i]));
    }
}

/// A key that no key bears the name of is not found; and a token that names none is meant for the
/// only key, where there is one alone.
pub proof fn law_unnamed_key(keys: Seq<JwkView>, id: Seq<char>, only: JwkView)
    requires
        forall|j: int| 0 <= j < keys.len() ==> (#[trigger] keys[j]).kid != Some(id),
    ensures
        key_for(keys, Some(id)) is None,
        key_for(seq![only], None) == Some(only),
        keys.len() != 1 ==> key_for(keys, None) is None,
    decreases keys.len(),
{
    if keys.len() > 0 {
        let rest = keys.skip(1);
        assert(keys[0].kid != Some(id));
        assert forall|j: int| 0 <= j < rest.len() implies (#[trigger] rest[j]).kid != Some(id) by {
            assert(rest[j] == keys[j + 1]);
        }
        law_unnamed_key(rest, id, only);
    }
}

// ---------------------------------------------------------------------------
// Headers
// ---------------------------------------------------------------------------

/// A cookie has the value that is written after its name, be there white space around either, and
/// whatever the value is.
pub proof fn law_cookie_written(
    a: Seq<char>,
    name: Seq<char>,
    b: Seq<char>,
    c: Seq<char>,
    value: Seq<char>,
    d: Seq<char>,
)
    requires
        all_white(a) && all_white(b) && all_white(c) && all_white(d),
        bare(name) && bare(value),
        !name.contains('=') && !name.contains(';') && !value.contains(';'),
    ensures
        cookie(a + name + b + seq!['='] + c + value + d, name) == Some(value),
{
    let key = a + name + b;
    let val = c + value + d;
    let piece = key + seq!['='] + val;
    assert(a + name + b + seq!['='] + c + value + d == piece);
    assert forall|i: int| 0 <= i < key.len() implies key[i] != '=' && key[i] != ';' by {
        if i < a.len() {
            assert(white(a[i]));
        } else if i < a.len() + name.len() {
            assert(name.contains(name[i - a.len()]));
        } else {
            assert(white(b[i - a.len() - name.len()]));
        }
    }
    assert forall|i: int| 0 <= i < val.len() implies val[i] != ';' by {
        if i < c.len() {
            assert(white(c[i]));
        } else if i < c.len() + value.len() {
            assert(value.contains(value[i - c.len()]));
        } else {
            assert(white(d[i - c.len() - value.len()]));
        }
    }
    assert(!piece.contains(';')) by {
        assert forall|i: int| 0 <= i < piece.len() implies piece[i] != ';' by {
            if i < key.len() {
                assert(piece[i] == key[i]);
            } else if i > key.len() {
                assert(piece[i] == val[i - key.len() - 1]);
            }
        }
    }
    law_split_plain(piece, ';');
    assert forall|i: int| 0 <= i < key.len() implies piece[i] != '=' by {
        assert(piece[i] == key[i]);
    }
    lemma_first_at_unique(piece, '=', key.len() as int);
    assert(piece.take(key.len() as int) == key);
    assert(piece.skip((key.len() + 1) as int) == val);
    law_trim(a, name, b);
    law_trim(c, value, d);
    assert(cookie_piece(piece, name) == Some(value));
    assert(split(piece, ';')[0] == piece);
}

/// A part of a `Cookie` header that has no equals sign, or another name before its first one, says
/// nothing of a cookie.
pub proof fn law_cookie_of_another_name(
    piece: Seq<char>,
    a: Seq<char>,
    key: Seq<char>,
    b: Seq<char>,
    rest: Seq<char>,
    name: Seq<char>,
)
    requires
        !piece.contains('=') && !piece.contains(';'),
        all_white(a) && all_white(b) && bare(key) && key != name,
        !key.contains('=') && !key.contains(';') && !rest.contains(';'),
    ensures
        cookie(piece, name) is None,
        cookie(a + key + b + seq!['='] + rest, name) is None,
{
    law_split_plain(piece, ';');
    assert forall|i: int| 0 <= i < piece.len() implies piece[i] != '=' by {
        assert(piece.contains(piece[i]));
    }
    lemma_first_at_unique(piece, '=', piece.len() as int);
    assert(split(piece, ';')[0] == piece);
    assert(split(piece, ';').skip(1).len() == 0);
    assert(cookie_piece(piece, name) is None);
    assert(cookie_among(split(piece, ';').skip(1), name) is None);
    let k = a + key + b;
    let whole = k + seq!['='] + rest;
    assert forall|i: int| 0 <= i < k.len() implies k[i] != '=' && k[i] != ';' by {
        if i < a.len() {
            assert(white(a[i]));
        } else if i < a.len() + key.len() {
            assert(key.contains(key[i - a.len()]));
        } else {
            assert(white(b[i - a.len() - key.len()]));
        }
    }
    assert(!whole.contains(';')) by {
        assert forall|i: int| 0 <= i < whole.len() implies whole[i] != ';' by {
            if i < k.len() {
                assert(whole[i] == k[i]);
            } else if i > k.len() {
                assert(whole[i] == rest[i - k.len() - 1]);
                assert(rest.contains(rest[i - k.len() - 1]));
            }
        }
    }
    law_split_plain(whole, ';');
    assert forall|i: int| 0 <= i < k.len() implies whole[i] != '=' by {
        assert(whole[i] == k[i]);
    }
    lemma_first_at_unique(whole, '=', k.len() as int);
    assert(whole.take(k.len() as int) == k);
    law_trim(a, key, b);
    assert(split(whole, ';')[0] == whole);
    assert(split(whole, ';').skip(1).len() == 0);
    assert(cookie_piece(whole, name) is None);
    assert(cookie_among(split(whole, ';').skip(1), name) is None);
}

/// A `Cache-Control` header gives the age that its first part gives, or else the one that the rest
/// does.
pub proof fn law_ages_apart(first: Seq<char>, rest: Seq<char>)
    ensures
        max_age(first.push(',') + rest) == match max_age(first) {
            Some(n) => Some(n),
            None => max_age(rest),
        },
{
    law_split_glued(first, rest, ',');
    lemma_ages_two(split(first, ','), split(rest, ','));
}

proof fn lemma_ages_two(a: Seq<Seq<char>>, b: Seq<Seq<char>>)
    ensures
        crate::jwks::max_age_among(a + b) == match crate::jwks::max_age_among(a) {
            Some(n) => Some(n),
            None => crate::jwks::max_age_among(b),
        },
    decreases a.len(),
{
    if a.len() == 0 {
        assert(a + b == b);
    } else {
        lemma_ages_two(a.skip(1), b);
        assert((a + b).skip(1) == a.skip(1) + b);
    }
}

/// One directive gives an age if and only if it is `max-age=` and a number, white space around it
/// aside.
pub proof fn law_age_directive(pre: Seq<char>, value: Seq<char>, post: Seq<char>, other: Seq<char>)
    requires
        all_white(pre) && all_white(post) && !value.contains(','),
        value.len() > 0 ==> !white(value[value.len() - 1]),
        bare(other) && !other.contains(',') && !has_prefix(other, "max-age="@),
    ensures
        max_age(pre + "max-age="@ + value + post) == number(value),
        max_age(pre + other + post) is None,
{
    reveal_strlit("max-age=");
    let core = "max-age="@ + value;
    assert(bare(core)) by {
        if value.len() > 0 {
            assert(core[core.len() - 1] == value[value.len() - 1]);
        }
    }
    law_trim(pre, core, post);
    law_trim(pre, other, post);
    let one = pre + core + post;
    assert(pre + "max-age="@ + value + post == one);
    assert(core.take(8) == "max-age="@);
    assert(core.skip(8) == value);
    lemma_one_directive(pre, core, post);
    lemma_one_directive(pre, other, post);
}

proof fn lemma_one_directive(pre: Seq<char>, core: Seq<char>, post: Seq<char>)
    requires
        all_white(pre) && all_white(post) && !core.contains(','),
    ensures
        max_age(pre + core + post) == max_age_directive(pre + core + post),
{
    let one = pre + core + post;
    assert(!one.contains(',')) by {
        assert forall|i: int| 0 <= i < one.len() implies one[i] != ',' by {
            if i < pre.len() {
                assert(white(pre[i]));
            } else if i < pre.len() + core.len() {
                assert(core.contains(core[i - pre.len()]));
                assert(one[i] == core[i - pre.len()]);
            } else {
                assert(white(post[i - pre.len() - core.len()]));
            }
        }
    }
    law_split_plain(one, ',');
    let all = split(one, ',');
    assert(all[0] == one);
    assert(all.skip(1).len() == 0);
    assert(crate::jwks::max_age_among(all.skip(1)) is None);
}

/// A record is fresh for `max_age` seconds after it was fetched, and at any time before.
pub proof fn law_fresh_for_its_age(meta: TenantMetaView, now: u64)
    ensures
        now >= meta.fetched_at ==> (is_fresh(meta, now) <==> now - meta.fetched_at < meta.max_age),
        now < meta.fetched_at ==> (is_fresh(meta, now) <==> 0 < meta.max_age),
        now >= meta.fetched_at ==> elapsed(now, meta.fetched_at) == now - meta.fetched_at,
        now < meta.fetched_at ==> elapsed(now, meta.fetched_at) == 0,
{
}

/// A text is decoded if and only if it is the base64url text of some bytes, and then to those.
pub proof fn law_decoded(s: Seq<char>)
    ensures
        match b64url_decoded(s) {
            Ok(bytes) => b64url_text(bytes) == s,
            Err(e) => e.kind == ErrorKind::Base64 && e.message == "base64url decode: "@
                + base64url_complaint(s) && forall|bytes: Seq<u8>| #[trigger]
                b64url_text(bytes) != s,
        },
{
}

} // verus!
