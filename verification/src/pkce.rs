//! The PKCE generator: a random verifier and the challenge derived from it.

use vstd::prelude::*;
use vstd::utf8::encode_utf8;
use base64::engine::general_purpose;
use base64::Engine;
use rand::Rng;
use sha2::{Digest, Sha256};

verus! {

/// Length of every generated verifier, in characters.
pub const VERIFIER_LENGTH: usize = 128;

/// The SHA-256 digest of a byte string.
pub uninterp spec fn sha256_digest(data: Seq<u8>) -> Seq<u8>;

/// The URL-safe base64 text of a byte string, without padding.
pub uninterp spec fn base64url_unpadded(data: Seq<u8>) -> Seq<char>;

/// An ASCII letter or digit.
pub open spec fn is_alphanumeric(c: char) -> bool {
    ('0' <= c && c <= '9') || ('a' <= c && c <= 'z') || ('A' <= c && c <= 'Z')
}

/// Every character is an ASCII letter or digit.
pub open spec fn all_alphanumeric(s: Seq<char>) -> bool {
    forall|i: int| 0 <= i < s.len() ==> is_alphanumeric(#[trigger] s[i])
}

/// The challenge that belongs to a verifier: the unpadded URL-safe base64 text
/// of the SHA-256 digest of the verifier's bytes.
pub open spec fn challenge_of(verifier: Seq<char>) -> Seq<char> {
    base64url_unpadded(sha256_digest(encode_utf8(verifier)))
}

/// Draws `n` characters from `rand`'s thread-local generator with its
/// `Alphanumeric` distribution, which yields only ASCII letters and digits.
/// Nothing else is claimed of the outcome.
#[verifier::external_body]
fn random_alphanumeric(n: usize) -> (text: String)
    ensures
        text@.len() == n,
        all_alphanumeric(text@),
{
    rand::thread_rng().sample_iter(&rand::distributions::Alphanumeric).take(n).map(char::from).collect()
}

/// Hashes with `Sha256::digest` of `sha2`; the digest has 32 bytes and is named
/// by [`sha256_digest`].
#[verifier::external_body]
fn sha256(data: &[u8]) -> (digest: Vec<u8>)
    ensures
        digest@ == sha256_digest(data@),
        digest@.len() == 32,
{
    Sha256::digest(data).to_vec()
}

/// Encodes with `base64`'s `URL_SAFE_NO_PAD` engine; the text is named by
/// [`base64url_unpadded`] and, being unpadded, has `ceil(4n / 3)` characters
/// for `n` bytes.
#[verifier::external_body]
fn base64url_encode(data: &[u8]) -> (text: String)
    ensures
        text@ == base64url_unpadded(data@),
        text@.len() == (4 * data@.len() + 2) / 3,
{
    general_purpose::URL_SAFE_NO_PAD.encode(data)
}

/// Derives the challenge of a verifier.
pub fn pkce_challenge(verifier: &str) -> (challenge: String)
    ensures
        challenge@ == challenge_of(verifier@),
        challenge@.len() == 43,
{
    let digest = sha256(verifier.as_bytes());
    base64url_encode(digest.as_slice())
}

/// Produces a fresh verifier of 128 ASCII letters and digits together with its
/// challenge.
pub fn generate_pkce() -> (pair: (String, String))
    ensures
        pair.0@.len() == 128,
        all_alphanumeric(pair.0@),
        pair.1@ == challenge_of(pair.0@),
        pair.1@.len() == 43,
{
    let verifier = random_alphanumeric(VERIFIER_LENGTH);
    let challenge = pkce_challenge(verifier.as_str());
    (verifier, challenge)
}

} // verus!
