//! Base64, as the `base64` crate writes and reads it.
use vstd::prelude::*;
use base64::Engine;
use crate::error::{ErrorV, SocialiteError};
use crate::text::{split_on, split_char};

verus! {

/// The digit for the 6-bit value `v` in the standard alphabet (`+`, `/`) or the
/// URL-safe one (`-`, `_`).
pub open spec fn b64_digit(v: u8, url_safe: bool) -> char {
    if v < 26 {
        (0x41 + v) as char
    } else if v < 52 {
        (0x61 + v - 26) as char
    } else if v < 62 {
        (0x30 + v - 52) as char
    } else if v == 62 {
        if url_safe { '-' } else { '+' }
    } else {
        if url_safe { '_' } else { '/' }
    }
}

/// RFC 4648 Base64: each group of three bytes becomes four digits; a last group
/// of one or two bytes becomes two or three digits, followed by `=` padding to
/// four when `pad` holds.
pub open spec fn b64_encode(bs: Seq<u8>, url_safe: bool, pad: bool) -> Seq<char>
    decreases bs.len(),
{
    if bs.len() == 0 {
        Seq::empty()
    } else if bs.len() == 1 {
        seq![b64_digit(bs[0] >> 2, url_safe), b64_digit((bs[0] & 3) << 4, url_safe)] + (if pad {
            seq!['=', '=']
        } else {
            Seq::empty()
        })
    } else if bs.len() == 2 {
        seq![
            b64_digit(bs[0] >> 2, url_safe),
            b64_digit(((bs[0] & 3) << 4) | (bs[1] >> 4), url_safe),
            b64_digit((bs[1] & 15) << 2, url_safe),
        ] + (if pad {
            seq!['=']
        } else {
            Seq::empty()
        })
    } else {
        seq![
            b64_digit(bs[0] >> 2, url_safe),
            b64_digit(((bs[0] & 3) << 4) | (bs[1] >> 4), url_safe),
            b64_digit(((bs[1] & 15) << 2) | (bs[2] >> 6), url_safe),
            b64_digit(bs[2] & 63, url_safe),
        ] + b64_encode(bs.subrange(3, bs.len() as int), url_safe, pad)
    }
}

/// `base64::engine::general_purpose::STANDARD.encode`: the standard alphabet,
/// with padding. The contract states RFC 4648 encoding, as the crate documents.
#[verifier::external_body]
pub fn base64_standard(data: &[u8]) -> (r: String)
    ensures
        r@ == b64_encode(data@, false, true),
{
    base64::engine::general_purpose::STANDARD.encode(data)
}

/// `base64::engine::general_purpose::URL_SAFE_NO_PAD.encode`: the URL-safe
/// alphabet, without padding. The contract states RFC 4648 encoding, as the
/// crate documents.
#[verifier::external_body]
pub fn base64_url(data: &[u8]) -> (r: String)
    ensures
        r@ == b64_encode(data@, true, false),
{
    base64::engine::general_purpose::URL_SAFE_NO_PAD.encode(data)
}

/// What `URL_SAFE_NO_PAD.decode` gives for a text: the bytes, or the text of its
/// `DecodeError`.
pub uninterp spec fn spec_base64_url_decode(text: Seq<char>) -> Result<Seq<u8>, Seq<char>>;

/// `base64::engine::general_purpose::URL_SAFE_NO_PAD.decode`, with a failure
/// reported by the error's message. Which texts decode, and to what, is left to
/// the name [`spec_base64_url_decode`]: the result depends on the text alone.
#[verifier::external_body]
pub fn base64_url_decode(text: &str) -> (r: Result<Vec<u8>, String>)
    ensures
        match spec_base64_url_decode(text@) {
            Ok(b) => r matches Ok(v) && v@ == b,
            Err(m) => r matches Err(x) && x@ == m,
        },
{
    base64::engine::general_purpose::URL_SAFE_NO_PAD.decode(text).map_err(|e| e.to_string())
}

/// The payload bytes of a JSON Web Token: the token must have three parts
/// separated by `.`, the middle one in URL-safe Base64 without padding.
pub open spec fn jwt_payload(token: Seq<char>) -> Result<Seq<u8>, ErrorV> {
    let parts = split_on(token, '.');
    if parts.len() != 3 {
        Err(ErrorV::Provider("Invalid id_token format"@))
    } else {
        match spec_base64_url_decode(parts[1]) {
            Ok(b) => Ok(b),
            Err(m) => Err(ErrorV::Base64(m)),
        }
    }
}

/// The payload bytes of the JSON Web Token `token`.
pub fn id_token_payload(token: &str) -> (r: Result<Vec<u8>, SocialiteError>)
    ensures
        match jwt_payload(token@) {
            Ok(b) => r matches Ok(v) && v@ == b,
            Err(e) => r matches Err(x) && x@ == e,
        },
{
    let parts = split_char(token, '.');
    if parts.len() != 3 {
        return Err(crate::error::provider_error("Invalid id_token format"));
    }
    match base64_url_decode(parts[1].as_str()) {
        Ok(b) => Ok(b),
        Err(m) => Err(SocialiteError::Base64(m)),
    }
}

/// The URL-safe Base64 of a document's compact JSON text.
pub open spec fn encoded_part(v: crate::json::JsonV) -> Seq<char> {
    b64_encode(vstd::utf8::encode_utf8(crate::json::json_text(v)), true, false)
}

/// No digit is the padding character `=`, nor the `.` that separates the parts of a token.
pub proof fn lemma_digit_not_pad(v: u8, url_safe: bool)
    ensures
        b64_digit(v, url_safe) != '=',
        b64_digit(v, url_safe) != '.',
{
    if v < 26 {
        assert((0x41 + v) as char != '=');
        assert((0x41 + v) as char != '.');
    } else if v < 52 {
        assert((0x61 + v - 26) as char != '=');
        assert((0x61 + v - 26) as char != '.');
    } else if v < 62 {
        assert((0x30 + v - 52) as char != '=');
        assert((0x30 + v - 52) as char != '.');
    }
}

/// Base64 without padding holds neither `=` nor `.`, and has `(4n + 2) / 3`
/// digits for `n` bytes.
pub proof fn lemma_unpadded(bs: Seq<u8>, url_safe: bool)
    ensures
        forall|i: int| 0 <= i < b64_encode(bs, url_safe, false).len() ==> #[trigger] b64_encode(bs, url_safe, false)[i] != '=' && b64_encode(bs, url_safe, false)[i] != '.',
        b64_encode(bs, url_safe, false).len() == (4 * bs.len() + 2) / 3,
    decreases bs.len(),
{
    let e = b64_encode(bs, url_safe, false);
    if bs.len() == 0 {
    } else if bs.len() == 1 {
        lemma_digit_not_pad(bs[0] >> 2, url_safe);
        lemma_digit_not_pad((bs[0] & 3) << 4, url_safe);
        assert(e =~= seq![b64_digit(bs[0] >> 2, url_safe), b64_digit((bs[0] & 3) << 4, url_safe)]);
    } else if bs.len() == 2 {
        lemma_digit_not_pad(bs[0] >> 2, url_safe);
        lemma_digit_not_pad(((bs[0] & 3) << 4) | (bs[1] >> 4), url_safe);
        lemma_digit_not_pad((bs[1] & 15) << 2, url_safe);
        assert(e =~= seq![
            b64_digit(bs[0] >> 2, url_safe),
            b64_digit(((bs[0] & 3) << 4) | (bs[1] >> 4), url_safe),
            b64_digit((bs[1] & 15) << 2, url_safe),
        ]);
    } else {
        let rest = bs.subrange(3, bs.len() as int);
        lemma_unpadded(rest, url_safe);
        lemma_digit_not_pad(bs[0] >> 2, url_safe);
        lemma_digit_not_pad(((bs[0] & 3) << 4) | (bs[1] >> 4), url_safe);
        lemma_digit_not_pad(((bs[1] & 15) << 2) | (bs[2] >> 6), url_safe);
        lemma_digit_not_pad(bs[2] & 63, url_safe);
        let head = seq![
            b64_digit(bs[0] >> 2, url_safe),
            b64_digit(((bs[0] & 3) << 4) | (bs[1] >> 4), url_safe),
            b64_digit(((bs[1] & 15) << 2) | (bs[2] >> 6), url_safe),
            b64_digit(bs[2] & 63, url_safe),
        ];
        assert(e == head + b64_encode(rest, url_safe, false));
        assert forall|i: int| 0 <= i < e.len() implies #[trigger] e[i] != '=' && e[i] != '.' by {
            if i >= 4 {
                assert(e[i] == b64_encode(rest, url_safe, false)[i - 4]);
            }
        }
    }
}

} // verus!
