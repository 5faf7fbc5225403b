//! Random tokens and PKCE challenges.

use base64::engine::general_purpose::URL_SAFE_NO_PAD;
use base64::Engine;
use rand::RngCore;
use sha2::{Digest, Sha256, Sha512};
use vstd::prelude::*;
use vstd::utf8::encode_utf8;

verus! {

/// The character that stands for a 6-bit value in the URL-safe alphabet.
pub open spec fn url_safe_char(v: int) -> char {
    if v < 26 {
        ('A' as int + v) as char
    } else if v < 52 {
        ('a' as int + (v - 26)) as char
    } else if v < 62 {
        ('0' as int + (v - 52)) as char
    } else if v == 62 {
        '-'
    } else {
        '_'
    }
}

/// The byte at `i`, and zero past the end.
pub open spec fn byte_at(bytes: Seq<u8>, i: int) -> int {
    if 0 <= i < bytes.len() {
        bytes[i] as int
    } else {
        0
    }
}

/// The `i`-th group of six bits.
pub open spec fn sextet(bytes: Seq<u8>, i: int) -> int {
    let j = i / 4 * 3;
    if i % 4 == 0 {
        byte_at(bytes, j) / 4
    } else if i % 4 == 1 {
        byte_at(bytes, j) % 4 * 16 + byte_at(bytes, j + 1) / 16
    } else if i % 4 == 2 {
        byte_at(bytes, j + 1) % 16 * 4 + byte_at(bytes, j + 2) / 64
    } else {
        byte_at(bytes, j + 2) % 64
    }
}

/// How many characters `n` bytes take without padding.
pub open spec fn base64_url_len(n: int) -> int {
    (4 * n + 2) / 3
}

/// The URL-safe Base64 text of some bytes, without padding.
pub open spec fn base64_url(bytes: Seq<u8>) -> Seq<char> {
    Seq::new(base64_url_len(bytes.len() as int) as nat, |i: int| url_safe_char(sextet(bytes, i)))
}

/// The SHA-256 digest of a message.
pub uninterp spec fn sha256(message: Seq<u8>) -> Seq<u8>;

/// The SHA-512 digest of a message.
pub uninterp spec fn sha512(message: Seq<u8>) -> Seq<u8>;

/// `base64::Engine::encode` of `URL_SAFE_NO_PAD`: every six bits become one
/// character of the URL-safe alphabet, the last group filled up with zero bits.
#[verifier::external_body]
fn encode_base64_url(bytes: &[u8]) -> (r: String)
    requires
        base64_url_len(bytes@.len() as int) <= isize::MAX,
    ensures
        r@ == base64_url(bytes@),
{
    URL_SAFE_NO_PAD.encode(bytes)
}

/// `Sha256::digest`: 32 bytes that depend on the message alone.
#[verifier::external_body]
fn digest_sha256(message: &[u8]) -> (r: Vec<u8>)
    ensures
        r@ == sha256(message@),
        r@.len() == 32,
{
    Sha256::digest(message).to_vec()
}

/// `Sha512::digest`: 64 bytes that depend on the message alone.
#[verifier::external_body]
pub(crate) fn digest_sha512(message: &[u8]) -> (r: Vec<u8>)
    ensures
        r@ == sha512(message@),
        r@.len() == 64,
{
    Sha512::digest(message).to_vec()
}

/// `RngCore::fill_bytes` of the thread's generator: overwrites every byte and
/// keeps the length. Which bytes come is chance.
#[verifier::external_body]
fn fill_random(buf: &mut Vec<u8>)
    ensures
        final(buf)@.len() == old(buf)@.len(),
{
    rand::thread_rng().fill_bytes(buf)
}

/// `n` random bytes.
pub fn random_bytes(n: usize) -> (r: Vec<u8>)
    requires
        n <= isize::MAX,
    ensures
        r@.len() == n,
{
    let mut buf: Vec<u8> = vec![0u8; n];
    fill_random(&mut buf);
    buf
}

/// The URL-safe text of some bytes.
pub fn token_text(bytes: &[u8]) -> (r: String)
    requires
        base64_url_len(bytes@.len() as int) <= isize::MAX,
    ensures
        r@ == base64_url(bytes@),
{
    encode_base64_url(bytes)
}

/// Whether `s` is the URL-safe text of some `n` bytes.
pub open spec fn token_of(s: Seq<char>, n: int) -> bool {
    exists|bytes: Seq<u8>| #![trigger base64_url(bytes)] bytes.len() == n && s == base64_url(bytes)
}

/// A random token: the URL-safe text of that many random bytes.
pub fn rand_token(bytes: usize) -> (r: String)
    requires
        base64_url_len(bytes as int) <= isize::MAX,
    ensures
        token_of(r@, bytes as int),
{
    let buf = random_bytes(bytes);
    token_text(buf.as_slice())
}

/// The S256 challenge of a verifier.
pub open spec fn challenge_of(verifier: Seq<char>) -> Seq<char> {
    base64_url(sha256(encode_utf8(verifier)))
}

/// The PKCE challenge that is sent ahead of `verifier` (method `S256`).
pub fn pkce_challenge(verifier: &str) -> (r: String)
    ensures
        r@ == challenge_of(verifier@),
        r@.len() == 43,
{
    let digest = digest_sha256(verifier.as_bytes());
    token_text(digest.as_slice())
}

} // verus!
