//! Random tokens, digests and the memory-wiping container that holds secret
//! text. The randomness, encoding and hashing are done by the `rand`,
//! `base64`, `sha2` and `zeroize` crates.
use vstd::prelude::*;
use vstd::string::*;

verus! {

/// Secret text held in `zeroize::Zeroizing<String>`, so that it is wiped from
/// memory when dropped. Verus does not take that generic type, whose bound is
/// an outside trait, as a declared type; the struct holds it privately.
#[verifier::external_body]
pub struct SecretText {
    inner: zeroize::Zeroizing<String>,
}

/// The text a `SecretText` holds.
pub uninterp spec fn secret_text(t: SecretText) -> Seq<char>;

/// Calls `Zeroizing::new`, which moves the string into the wiping container
/// unchanged.
#[verifier::external_body]
pub(crate) fn seal(text: String) -> (t: SecretText)
    ensures
        secret_text(t) == text@,
{
    SecretText { inner: zeroize::Zeroizing::new(text) }
}

/// Reads the string inside a `Zeroizing` container through its `Deref`.
#[verifier::external_body]
pub(crate) fn secret_str(t: &SecretText) -> (s: &str)
    ensures
        s@ == secret_text(*t),
{
    t.inner.as_str()
}

/// What `base64::engine::general_purpose::URL_SAFE_NO_PAD.encode` makes of
/// a byte sequence.
pub uninterp spec fn base64_url_unpadded(bytes: Seq<u8>) -> Seq<char>;

/// What `sha2::Sha256::digest` makes of a byte sequence.
pub uninterp spec fn sha256(bytes: Seq<u8>) -> Seq<u8>;

/// A character of the URL-safe base64 alphabet: a letter, a digit, '-' or '_'.
pub open spec fn url_safe_char(c: char) -> bool {
    ('A' <= c && c <= 'Z') || ('a' <= c && c <= 'z') || ('0' <= c && c <= '9') || c == '-' || c
        == '_'
}

/// Calls `Engine::encode` on the URL-safe, unpadded base64 engine: every
/// three bytes become four characters of the URL-safe alphabet, and a last
/// one or two bytes become two or three, so `n` bytes take `(4n + 2) / 3`
/// characters. The length is computed with checked arithmetic, which the
/// bound on the input keeps from overflowing.
#[verifier::external_body]
pub(crate) fn encode_base64_url(bytes: &[u8]) -> (s: String)
    requires
        bytes@.len() <= usize::MAX / 2,
    ensures
        s@ == base64_url_unpadded(bytes@),
        s@.len() == (4 * bytes@.len() + 2) / 3,
        forall|i: int| 0 <= i < s@.len() ==> url_safe_char(#[trigger] s@[i]),
{
    base64::Engine::encode(&base64::engine::general_purpose::URL_SAFE_NO_PAD, bytes)
}

/// Calls `Sha256::digest`; the 32-byte output is named by `sha256`.
#[verifier::external_body]
pub(crate) fn sha256_digest(bytes: &[u8]) -> (d: [u8; 32])
    ensures
        d@ == sha256(bytes@),
{
    <sha2::Sha256 as sha2::Digest>::digest(bytes).into()
}

/// Calls `RngCore::fill_bytes` on the thread-local generator of `rand`;
/// nothing is claimed about the bytes it writes.
#[verifier::external_body]
pub(crate) fn fill_random(bytes: &mut [u8; 32]) {
    rand::RngCore::fill_bytes(&mut rand::rng(), bytes)
}

/// Calls `Zeroize::zeroize` on a byte array, which overwrites every byte
/// with zero.
#[verifier::external_body]
pub(crate) fn wipe(bytes: &mut [u8; 32])
    ensures
        forall|i: int| 0 <= i < 32 ==> final(bytes)@[i] == 0u8,
{
    zeroize::Zeroize::zeroize(bytes)
}

/// The SHA-256 digest of a token's UTF-8 bytes.
pub fn token_digest(value: &str) -> (d: [u8; 32])
    ensures
        d@ == sha256(value.spec_bytes()),
{
    sha256_digest(value.as_bytes())
}

/// Whether a text is the unpadded URL-safe base64 form of 32 bytes: 43
/// characters of the URL-safe alphabet.
pub open spec fn is_token_of_32_bytes(t: Seq<char>) -> bool {
    &&& exists|b: Seq<u8>| b.len() == 32 && t == #[trigger] base64_url_unpadded(b)
    &&& t.len() == 43
    &&& forall|i: int| 0 <= i < t.len() ==> url_safe_char(#[trigger] t[i])
}

/// A fresh token: 32 random bytes in unpadded URL-safe base64. The random
/// bytes are wiped once encoded.
pub fn random_token() -> (t: SecretText)
    ensures
        is_token_of_32_bytes(secret_text(t)),
{
    let mut bytes = [0u8; 32];
    fill_random(&mut bytes);
    let ghost drawn = bytes@;
    let token = seal(encode_base64_url(bytes.as_slice()));
    wipe(&mut bytes);
    assert(drawn.len() == 32 && secret_text(token) == base64_url_unpadded(drawn));
    assert(forall|i: int| 0 <= i < secret_text(token).len() ==> url_safe_char(#[trigger] secret_text(token)[i]));
    token
}

} // verus!
