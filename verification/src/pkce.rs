//! PKCE (RFC 7636): a random code verifier and its S256 challenge.
use vstd::prelude::*;
use vstd::utf8::encode_utf8;
use crate::codec::{b64_encode, base64_url, lemma_unpadded};
use sha2::Digest;
use rand::Rng;

verus! {

/// An ASCII letter or digit.
pub open spec fn alphanumeric(c: char) -> bool {
    ||| 'A' <= c <= 'Z'
    ||| 'a' <= c <= 'z'
    ||| '0' <= c <= '9'
}

/// `len` characters drawn by `rand::thread_rng()` from the `Alphanumeric`
/// distribution: ASCII letters and digits, uniformly. Which characters come
/// out rests on chance; the contract states their number and alphabet.
#[verifier::external_body]
fn random_alphanumeric(len: usize) -> (r: String)
    ensures
        r@.len() == len,
        forall|i: int| 0 <= i < r@.len() ==> alphanumeric(#[trigger] r@[i]),
{
    rand::thread_rng().sample_iter(&rand::distributions::Alphanumeric).take(len).map(char::from).collect()
}

/// The SHA-256 digest of a byte sequence.
pub uninterp spec fn spec_sha256(data: Seq<u8>) -> Seq<u8>;

/// `<sha2::Sha256 as Digest>::digest`: the SHA-256 digest of `data`, which is
/// 32 bytes long and depends on `data` alone.
#[verifier::external_body]
fn sha256(data: &[u8]) -> (r: Vec<u8>)
    ensures
        r@ == spec_sha256(data@),
        r@.len() == 32,
{
    sha2::Sha256::digest(data).to_vec()
}

/// The S256 challenge of a code verifier: the URL-safe Base64, without
/// padding, of the SHA-256 digest of its UTF-8 bytes.
pub open spec fn challenge_of(verifier: Seq<char>) -> Seq<char> {
    b64_encode(spec_sha256(encode_utf8(verifier)), true, false)
}

/// The S256 challenge of a code verifier.
pub fn pkce_challenge(verifier: &str) -> (r: String)
    ensures
        r@ == challenge_of(verifier@),
        r@.len() == 43,
        !r@.contains('='),
{
    let digest = sha256(verifier.as_bytes());
    proof {
        lemma_unpadded(digest@, true);
    }
    base64_url(digest.as_slice())
}

/// Generates a `(code_verifier, code_challenge)` pair for OAuth2 PKCE: a random
/// verifier of 64 letters and digits, to be kept in the session, and its S256
/// challenge, to be sent in the authorization URL.
pub fn generate_pkce() -> (r: (String, String))
    ensures
        r.0@.len() == 64,
        forall|i: int| 0 <= i < r.0@.len() ==> alphanumeric(#[trigger] r.0@[i]),
        r.1@ == challenge_of(r.0@),
        r.1@.len() == 43,
        !r.1@.contains('='),
{
    let verifier = random_alphanumeric(64);
    let challenge = pkce_challenge(verifier.as_str());
    (verifier, challenge)
}

} // verus!
