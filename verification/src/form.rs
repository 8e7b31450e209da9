//! `application/x-www-form-urlencoded` query strings, as the `url` crate writes
//! them, and the standard OAuth2 authorization parameters.
use vstd::prelude::*;
use vstd::utf8::{encode_utf8, encode_utf8_decode_utf8};
use crate::text::{join, strs_view, owned, join_strings, opt_view};

verus! {

/// The bytes that `form_urlencoded::byte_serialize` copies unchanged:
/// `*`, `-`, `.`, `0-9`, `A-Z`, `_` and `a-z`.
pub open spec fn unreserved(b: u8) -> bool {
    ||| b == 0x2A
    ||| b == 0x2D
    ||| b == 0x2E
    ||| 0x30 <= b <= 0x39
    ||| 0x41 <= b <= 0x5A
    ||| b == 0x5F
    ||| 0x61 <= b <= 0x7A
}

/// The upper-case hexadecimal digit for `d < 16`.
pub open spec fn hex_upper(d: u8) -> char {
    if d < 10 {
        (0x30 + d) as char
    } else {
        (0x41 + d - 10) as char
    }
}

/// How one byte is written: unchanged, `+` for a space, or `%XX`.
pub open spec fn encode_byte(b: u8) -> Seq<char> {
    if unreserved(b) {
        seq![b as char]
    } else if b == 0x20 {
        seq!['+']
    } else {
        seq!['%', hex_upper(b / 16), hex_upper(b % 16)]
    }
}

pub open spec fn encode_bytes(bs: Seq<u8>) -> Seq<char>
    decreases bs.len(),
{
    if bs.len() == 0 {
        Seq::empty()
    } else {
        encode_byte(bs[0]) + encode_bytes(bs.drop_first())
    }
}

/// The form encoding of a string: each byte of its UTF-8 encoding written as above.
pub open spec fn form_encode(s: Seq<char>) -> Seq<char> {
    encode_bytes(encode_utf8(s))
}

/// `name=value`, both encoded.
pub open spec fn pair_text(p: (Seq<char>, Seq<char>)) -> Seq<char> {
    form_encode(p.0) + seq!['='] + form_encode(p.1)
}

/// The encoded pairs, joined by `&`.
pub open spec fn query_text(pairs: Seq<(Seq<char>, Seq<char>)>) -> Seq<char> {
    join(pairs.map_values(|p: (Seq<char>, Seq<char>)| pair_text(p)), seq!['&'])
}

pub open spec fn pairs_view(v: Seq<(String, String)>) -> Seq<(Seq<char>, Seq<char>)> {
    v.map_values(|p: (String, String)| (p.0@, p.1@))
}

/// The query string for `pairs`, written by `url::form_urlencoded::Serializer`
/// (`new`, `extend_pairs`, `finish`). The contract states what its source does:
/// each pair becomes `name=value` with every byte of both sides written by
/// `byte_serialize`, and pairs are separated by `&`.
#[verifier::external_body]
pub fn encode_query(pairs: &Vec<(String, String)>) -> (r: String)
    ensures
        r@ == query_text(pairs_view(pairs@)),
{
    url::form_urlencoded::Serializer::new(String::new()).extend_pairs(pairs.iter()).finish()
}

/// The `scope`, `state` and PKCE parameters that follow a provider's own ones:
/// the scopes joined by a space (when there are any), the state, and the
/// challenge with its method `S256`.
pub open spec fn auth_params(
    scopes: Seq<Seq<char>>,
    state: Option<Seq<char>>,
    pkce: Option<Seq<char>>,
) -> Seq<(Seq<char>, Seq<char>)> {
    let s = if scopes.len() > 0 {
        seq![("scope"@, join(scopes, seq![' ']))]
    } else {
        Seq::empty()
    };
    let t = match state {
        Some(st) => seq![("state"@, st)],
        None => Seq::empty(),
    };
    let p = match pkce {
        Some(c) => seq![("code_challenge"@, c), ("code_challenge_method"@, "S256"@)],
        None => Seq::empty(),
    };
    s + t + p
}

/// The standard parameters: `client_id`, `redirect_uri`, then [`auth_params`].
pub open spec fn oauth_params(
    client_id: Seq<char>,
    redirect_uri: Seq<char>,
    scopes: Seq<Seq<char>>,
    state: Option<Seq<char>>,
    pkce: Option<Seq<char>>,
) -> Seq<(Seq<char>, Seq<char>)> {
    seq![("client_id"@, client_id), ("redirect_uri"@, redirect_uri)] + auth_params(
        scopes,
        state,
        pkce,
    )
}

/// A pair of owned strings.
pub fn pair(k: &str, v: &str) -> (r: (String, String))
    ensures
        r.0@ == k@,
        r.1@ == v@,
{
    (owned(k), owned(v))
}

/// Appends the `scope`, `state` and PKCE parameters to `params`.
pub fn append_auth_params(
    params: &mut Vec<(String, String)>,
    scopes: &[String],
    state: &Option<String>,
    pkce_challenge: &Option<String>,
)
    ensures
        pairs_view(final(params)@) == pairs_view(old(params)@) + auth_params(
            strs_view(scopes@),
            opt_view(*state),
            opt_view(*pkce_challenge),
        ),
{
    let ghost start = pairs_view(params@);
    let ghost sv = strs_view(scopes@);
    if scopes.len() > 0 {
        let joined = join_strings(scopes, " ");
        proof { reveal_strlit(" "); assert(" "@ =~= seq![' ']); }
        params.push((owned("scope"), joined));
        assert(pairs_view(params@) =~= start + seq![("scope"@, join(sv, seq![' ']))]);
    } else {
        assert(pairs_view(params@) =~= start);
    }
    let ghost s = pairs_view(params@);
    if let Some(st) = state {
        params.push(pair("state", st.as_str()));
        assert(pairs_view(params@) =~= s + seq![("state"@, st@)]);
    } else {
        assert(pairs_view(params@) =~= s);
    }
    let ghost t = pairs_view(params@);
    if let Some(p) = pkce_challenge {
        params.push(pair("code_challenge", p.as_str()));
        params.push(pair("code_challenge_method", "S256"));
        assert(pairs_view(params@) =~= t + seq![("code_challenge"@, p@), ("code_challenge_method"@, "S256"@)]);
    } else {
        assert(pairs_view(params@) =~= t);
    }
    proof {
        let a = auth_params(sv, opt_view(*state), opt_view(*pkce_challenge));
        assert(pairs_view(params@) =~= start + a);
    }
}

/// The standard OAuth2 authorization parameters, in order.
pub fn build_oauth_params(
    client_id: &str,
    redirect_uri: &str,
    scopes: &[String],
    state: &Option<String>,
    pkce_challenge: &Option<String>,
) -> (r: Vec<(String, String)>)
    ensures
        pairs_view(r@) == oauth_params(
            client_id@,
            redirect_uri@,
            strs_view(scopes@),
            opt_view(*state),
            opt_view(*pkce_challenge),
        ),
{
    let mut params: Vec<(String, String)> = Vec::new();
    params.push(pair("client_id", client_id));
    params.push(pair("redirect_uri", redirect_uri));
    assert(pairs_view(params@) =~= seq![("client_id"@, client_id@), ("redirect_uri"@, redirect_uri@)]);
    append_auth_params(&mut params, scopes, state, pkce_challenge);
    params
}

/// The characters that can occur in a form-encoded string.
pub open spec fn form_char(c: char) -> bool {
    ||| c == '*'
    ||| c == '-'
    ||| c == '.'
    ||| c == '_'
    ||| c == '+'
    ||| c == '%'
    ||| ('0' <= c && c <= '9')
    ||| ('A' <= c && c <= 'Z')
    ||| ('a' <= c && c <= 'z')
}

proof fn lemma_encode_byte_chars(b: u8)
    ensures
        forall|i: int| 0 <= i < encode_byte(b).len() ==> form_char(#[trigger] encode_byte(b)[i]),
{
}

proof fn lemma_encode_bytes_chars(bs: Seq<u8>)
    ensures
        forall|i: int| 0 <= i < encode_bytes(bs).len() ==> form_char(#[trigger] encode_bytes(bs)[i]),
    decreases bs.len(),
{
    if bs.len() > 0 {
        lemma_encode_byte_chars(bs[0]);
        lemma_encode_bytes_chars(bs.drop_first());
        let e = encode_byte(bs[0]);
        let rest = encode_bytes(bs.drop_first());
        assert forall|i: int| 0 <= i < encode_bytes(bs).len() implies form_char(
            #[trigger] encode_bytes(bs)[i],
        ) by {
            if i < e.len() {
                assert(encode_bytes(bs)[i] == e[i]);
            } else {
                assert(encode_bytes(bs)[i] == rest[i - e.len()]);
            }
        }
    }
}

/// Every character of a form-encoded string is a letter, a digit, or one of
/// `*-._+%`; in particular none of `&`, `=`, `?`, `#` or a space, so a value can
/// never add or split a parameter of the query it is written into.
pub proof fn lemma_form_encode_chars(s: Seq<char>)
    ensures
        forall|i: int| 0 <= i < form_encode(s).len() ==> form_char(#[trigger] form_encode(s)[i]),
        !form_encode(s).contains('&'),
        !form_encode(s).contains('='),
        !form_encode(s).contains('?'),
        !form_encode(s).contains('#'),
        !form_encode(s).contains(' '),
{
    lemma_encode_bytes_chars(encode_utf8(s));
}

/// The value of an upper-case hexadecimal digit.
pub open spec fn hex_value(c: char) -> u8 {
    if '0' <= c && c <= '9' {
        (c as u32 - 0x30) as u8
    } else {
        (c as u32 - 0x41 + 10) as u8
    }
}

/// Reading a form-encoded string back into bytes.
pub open spec fn decode_chars(cs: Seq<char>) -> Seq<u8>
    decreases cs.len(),
{
    if cs.len() == 0 {
        Seq::empty()
    } else if cs[0] == '%' && cs.len() >= 3 {
        seq![(hex_value(cs[1]) * 16 + hex_value(cs[2])) as u8] + decode_chars(cs.subrange(3, cs.len() as int))
    } else if cs[0] == '+' {
        seq![0x20u8] + decode_chars(cs.drop_first())
    } else {
        seq![cs[0] as u8] + decode_chars(cs.drop_first())
    }
}

proof fn lemma_hex_roundtrip(d: u8)
    requires
        d < 16,
    ensures
        hex_value(hex_upper(d)) == d,
        hex_upper(d) != '%',
        hex_upper(d) != '+',
{
}

proof fn lemma_decode_encode_bytes(bs: Seq<u8>)
    ensures
        decode_chars(encode_bytes(bs)) == bs,
    decreases bs.len(),
{
    if bs.len() > 0 {
        let b = bs[0];
        let rest = encode_bytes(bs.drop_first());
        lemma_decode_encode_bytes(bs.drop_first());
        let e = encode_byte(b) + rest;
        assert(encode_bytes(bs) == e);
        if unreserved(b) {
            assert(e[0] == b as char);
            assert(e.drop_first() =~= rest);
            assert((b as char) as u8 == b);
        } else if b == 0x20 {
            assert(e.drop_first() =~= rest);
        } else {
            lemma_hex_roundtrip(b / 16);
            lemma_hex_roundtrip(b % 16);
            assert(e.subrange(3, e.len() as int) =~= rest);
            assert(e[1] == hex_upper(b / 16));
            assert(e[2] == hex_upper(b % 16));
            assert((b / 16) * 16 + b % 16 == b);
        }
        assert(decode_chars(e) =~= bs);
    }
}

/// Form encoding is injective: two different strings never encode alike, so a
/// query string determines the values written into it.
pub proof fn lemma_form_encode_injective(a: Seq<char>, b: Seq<char>)
    requires
        form_encode(a) == form_encode(b),
    ensures
        a == b,
{
    lemma_decode_encode_bytes(encode_utf8(a));
    lemma_decode_encode_bytes(encode_utf8(b));
    encode_utf8_decode_utf8(a);
    encode_utf8_decode_utf8(b);
}

/// Whether the text `t` occurs in `s`.
pub open spec fn holds_text(s: Seq<char>, t: Seq<char>) -> bool {
    exists|k: int| 0 <= k && k + t.len() <= s.len() && #[trigger] s.subrange(k, k + t.len()) == t
}

/// A URL made of `base` and the query of `ps` holds each pair `name=value`,
/// both encoded.
pub proof fn lemma_pairs_in_url(base: Seq<char>, ps: Seq<(Seq<char>, Seq<char>)>, i: int)
    requires
        0 <= i < ps.len(),
    ensures
        holds_text(base + query_text(ps), pair_text(ps[i])),
{
    let list = ps.map_values(|p: (Seq<char>, Seq<char>)| pair_text(p));
    let t = pair_text(ps[i]);
    assert(list[i] == t);
    crate::text::lemma_join_holds(list, seq!['&'], i);
    let q = query_text(ps);
    assert(q == join(list, seq!['&']));
    let k = choose|k: int|
        0 <= k && k + list[i].len() <= join(list, seq!['&']).len() && #[trigger] join(list, seq!['&']).subrange(
            k,
            k + list[i].len(),
        ) == list[i];
    let u = base + q;
    let m = base.len() + k;
    assert(u.subrange(m, m + t.len()) =~= q.subrange(k, k + t.len()));
}

/// A text whose piece `lead` ends with `key`, and is followed by `v`, holds
/// `key` followed by `v`.
pub proof fn lemma_holds_after(front: Seq<char>, lead: Seq<char>, key: Seq<char>, v: Seq<char>, rest: Seq<char>)
    requires
        key.len() <= lead.len(),
        lead.subrange(lead.len() - key.len(), lead.len() as int) == key,
    ensures
        holds_text(front + lead + v + rest, key + v),
{
    let u = front + lead + v + rest;
    let k = front.len() + lead.len() - key.len();
    assert(u.subrange(k, k + (key + v).len()) =~= key + v);
}

} // verus!
