//! The JSON Web Token operations of `jsonwebtoken` that the providers use:
//! signing Apple's client secret and checking OpenID Connect ID tokens.
use vstd::prelude::*;
use crate::codec::spec_base64_url_decode;
use crate::json::{Json, JsonV, spec_json_parse};
use crate::text::split_on;

verus! {

/// A character of the URL-safe Base64 alphabet.
pub open spec fn url_safe_digit(c: char) -> bool {
    ||| 'A' <= c <= 'Z'
    ||| 'a' <= c <= 'z'
    ||| '0' <= c <= '9'
    ||| c == '-'
    ||| c == '_'
}

/// What `EncodingKey::from_ec_pem` makes of a PEM text: `None` where it reads
/// an EC private key from it, else the text of its error.
pub uninterp spec fn spec_ec_pem_error(pem: Seq<u8>) -> Option<Seq<char>>;

/// Whether `signature` is an ES256 signature (ECDSA over P-256 with SHA-256,
/// in URL-safe Base64 without padding) of `message` by the private key that
/// the PEM text `pem` holds. Whether a signature is valid depends on these
/// three values alone.
pub uninterp spec fn spec_es256_signs(pem: Seq<u8>, message: Seq<u8>, signature: Seq<char>) -> bool;

/// `jsonwebtoken::crypto::sign` with `Algorithm::ES256`, under the key that
/// `jsonwebtoken::EncodingKey::from_ec_pem` reads from `pem`: a signature of
/// `message` by that key, or the text of the error. A PEM text that does not
/// hold an EC private key gives the error of `from_ec_pem`; signing can fail
/// too (a key that is not a P-256 PKCS#8 key), with a text that is not stated.
/// ECDSA signatures are randomized: which valid signature comes back is not
/// stated, only that it is valid for the message under that key and written in
/// the URL-safe Base64 alphabet.
#[verifier::external_body]
pub fn sign_es256(message: &[u8], pem: &[u8]) -> (r: Result<String, String>)
    ensures
        match spec_ec_pem_error(pem@) {
            Some(m) => r matches Err(x) && x@ == m,
            None => r matches Ok(s) ==> spec_es256_signs(pem@, message@, s@) && forall|i: int|
                0 <= i < s@.len() ==> url_safe_digit(#[trigger] s@[i]),
        },
{
    let key = jsonwebtoken::EncodingKey::from_ec_pem(pem).map_err(|e| e.to_string())?;
    jsonwebtoken::crypto::sign(message, &key, jsonwebtoken::Algorithm::ES256).map_err(|e| e.to_string())
}

#[verifier::external_type_specification]
#[verifier::external_body]
pub struct ExAlgorithm(jsonwebtoken::Algorithm);

#[verifier::external_type_specification]
#[verifier::external_body]
pub struct ExJwkSet(jsonwebtoken::jwk::JwkSet);

/// What `decode_header` reads from a token: the key id (`kid`) of its header,
/// or the text of its error.
pub uninterp spec fn spec_jwt_kid(token: Seq<char>) -> Result<Option<Seq<char>>, Seq<char>>;

/// `jsonwebtoken::decode_header`: the header of a token, by its key id and
/// algorithm, or the text of the error. The key id, and the error, depend on
/// the token alone; the algorithm is opaque.
#[verifier::external_body]
pub fn jwt_header(token: &str) -> (r: Result<(Option<String>, jsonwebtoken::Algorithm), String>)
    ensures
        match spec_jwt_kid(token@) {
            Ok(k) => r matches Ok(x) && crate::text::opt_view(x.0) == k,
            Err(m) => r matches Err(x) && x@ == m,
        },
{
    match jsonwebtoken::decode_header(token) {
        Ok(h) => Ok((h.kid, h.alg)),
        Err(e) => Err(e.to_string()),
    }
}

/// The keys of a key set, in order, each as the JSON document that serde_json
/// writes for it: `kty`, the key's own parameters, and `kid`, `alg`, `use`
/// where the key has them.
pub uninterp spec fn jwk_keys(set: jsonwebtoken::jwk::JwkSet) -> Seq<JsonV>;

/// The key id (`kid`) in a key's JSON document, if it has one.
pub open spec fn jwk_key_id(key: JsonV) -> Option<Seq<char>> {
    key.get("kid"@).as_str()
}

/// The key ids of the keys of a key set, in order.
pub open spec fn jwk_key_ids(set: jsonwebtoken::jwk::JwkSet) -> Seq<Option<Seq<char>>> {
    jwk_keys(set).map_values(|k: JsonV| jwk_key_id(k))
}

/// Whether `i` is the first index of `ids` that holds the key id `kid`.
pub open spec fn first_key(ids: Seq<Option<Seq<char>>>, kid: Seq<char>, i: int) -> bool {
    &&& 0 <= i < ids.len()
    &&& ids[i] == Some(kid)
    &&& forall|j: int| 0 <= j < i ==> ids[j] != Some(kid)
}

/// The number of keys of a key set (`keys.len()`).
#[verifier::external_body]
fn jwk_count(set: &jsonwebtoken::jwk::JwkSet) -> (n: usize)
    ensures
        n == jwk_keys(*set).len(),
{
    set.keys.len()
}

/// The key id (`common.key_id`) of the key at index `i`.
#[verifier::external_body]
fn jwk_kid(set: &jsonwebtoken::jwk::JwkSet, i: usize) -> (r: Option<String>)
    requires
        i < jwk_keys(*set).len(),
    ensures
        crate::text::opt_view(r) == jwk_key_ids(*set)[i as int],
{
    set.keys[i].common.key_id.clone()
}

/// The index of the first key of the set whose key id is `kid`, if any: the
/// key that `JwkSet::find` gives.
pub fn find_jwk(set: &jsonwebtoken::jwk::JwkSet, kid: &str) -> (r: Option<usize>)
    ensures
        match r {
            Some(i) => first_key(jwk_key_ids(*set), kid@, i as int),
            None => !jwk_key_ids(*set).contains(Some(kid@)),
        },
{
    let n = jwk_count(set);
    let mut i: usize = 0;
    while i < n
        invariant
            i <= n,
            n == jwk_key_ids(*set).len(),
            forall|j: int| 0 <= j < i ==> jwk_key_ids(*set)[j] != Some(kid@),
        decreases n - i,
    {
        let k = jwk_kid(set, i);
        let hit = match &k {
            Some(t) => crate::text::str_eq(t.as_str(), kid),
            None => false,
        };
        if hit {
            return Some(i);
        }
        i = i + 1;
    }
    None
}

/// What `serde_json::from_value::<JwkSet>` makes of a JSON document: the keys
/// of the set it reads, in order, as [`jwk_keys`] gives them, or the text of
/// its error.
pub uninterp spec fn spec_jwk_set_of(doc: JsonV) -> Result<Seq<JsonV>, Seq<char>>;

/// `serde_json::from_value::<JwkSet>`: the key set (RFC 7517) in a JSON
/// document. Whether it reads, and the keys of the set, depend on the document
/// alone.
#[verifier::external_body]
pub fn parse_jwk_set(doc: &Json) -> (r: Result<jsonwebtoken::jwk::JwkSet, String>)
    ensures
        match spec_jwk_set_of(doc.deep()) {
            Ok(keys) => r matches Ok(set) && jwk_keys(set) == keys,
            Err(m) => r matches Err(x) && x@ == m,
        },
{
    serde_json::from_value::<jsonwebtoken::jwk::JwkSet>(crate::json::value_of_json(doc)).map_err(|e| e.to_string())
}

/// Whether the token's signature checks out against the JSON Web Key `key`:
/// `DecodingKey::from_jwk` reads a key from it, the key's family fits the
/// algorithm that the token's header names, and the signature over the
/// token's first two parts verifies under that algorithm and key. It depends
/// on the key and the token alone.
pub uninterp spec fn spec_jws_valid(key: JsonV, token: Seq<char>) -> bool;

/// Whether a claim of a token's payload names `expected`, as `jsonwebtoken`
/// checks an audience or an issuer: a string must be `expected`, and an array
/// of strings must hold it. A claim of any other form (absent, `null`, a
/// number, an array with an element that is not a string) is not checked.
pub open spec fn claim_names(claim: JsonV, expected: Seq<char>) -> bool {
    match claim {
        JsonV::Str(s) => s == expected,
        JsonV::Array(items) => (forall|i: int| 0 <= i < items.len() ==> #[trigger] items[i] is Str)
            ==> items.contains(JsonV::Str(expected)),
        _ => true,
    }
}

/// What `jsonwebtoken::decode` demands of a token's claims, apart from its
/// signature and the clock: the token has at least three `.`-separated parts,
/// the one before the signature is URL-safe Base64 of a JSON document, and
/// where that document is an object, its `exp` is a number, its `aud` names
/// `audience` and its `iss` names `issuer`.
pub open spec fn claims_accepted(token: Seq<char>, audience: Seq<char>, issuer: Seq<char>) -> bool {
    let parts = split_on(token, '.');
    &&& parts.len() >= 3
    &&& match spec_base64_url_decode(parts[parts.len() - 2]) {
        Ok(bytes) => match spec_json_parse(bytes) {
            Ok(claims) => claims is Object ==> {
                &&& (claims.get("exp"@) is PosInt || claims.get("exp"@) is Float)
                &&& claim_names(claims.get("aud"@), audience)
                &&& claim_names(claims.get("iss"@), issuer)
            },
            Err(_) => false,
        },
        Err(_) => false,
    }
}

/// `jsonwebtoken::decode::<serde_json::Value>` with the key that
/// `DecodingKey::from_jwk` reads from the set's key at `index`, and
/// `Validation::new(alg)` with the one audience `audience` and the one issuer
/// `issuer`: whether the token is accepted. Where it is, the header names
/// `alg` (the validation allows no other), the signature checks out against
/// that key ([`spec_jws_valid`]), and the claims passed the checks that
/// [`claims_accepted`] states. That the token has not expired by the clock is
/// not stated: it rests on the time of the call.
#[verifier::external_body]
pub fn token_verifies(
    token: &str,
    set: &jsonwebtoken::jwk::JwkSet,
    index: usize,
    alg: jsonwebtoken::Algorithm,
    audience: &str,
    issuer: &str,
) -> (r: bool)
    requires
        index < jwk_keys(*set).len(),
    ensures
        r ==> spec_jws_valid(jwk_keys(*set)[index as int], token@) && claims_accepted(token@, audience@, issuer@),
{
    let key = match jsonwebtoken::DecodingKey::from_jwk(&set.keys[index]) {
        Ok(k) => k,
        Err(_) => return false,
    };
    let mut validation = jsonwebtoken::Validation::new(alg);
    validation.set_audience(&[audience]);
    validation.set_issuer(&[issuer]);
    jsonwebtoken::decode::<serde_json::Value>(token, &key, &validation).is_ok()
}

} // verus!
