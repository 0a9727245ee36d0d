//! The cryptographic building blocks the vault is made of: Argon2id key
//! derivation, XChaCha20-Poly1305 authenticated encryption, base64 transport,
//! the operating system's random source, key wiping, and UTF-8 decoding.
use vstd::prelude::*;
use vstd::utf8::{decode_utf8, valid_utf8};

use base64::Engine;
use chacha20poly1305::aead::Aead;
use chacha20poly1305::KeyInit;
use zeroize::Zeroize;

verus! {

/// The 32-byte Argon2id (version 0x13) output for the given memory, time and
/// parallelism costs, password and salt.
pub uninterp spec fn argon2id_key(
    m_cost: u32,
    t_cost: u32,
    p_cost: u32,
    password: Seq<u8>,
    salt: Seq<u8>,
) -> Seq<u8>;

/// The costs `argon2::Params::new` accepts.
pub open spec fn argon2_params_ok(m_cost: u32, t_cost: u32, p_cost: u32) -> bool {
    &&& m_cost >= 8
    &&& m_cost >= 8 * p_cost
    &&& t_cost >= 1
    &&& 1 <= p_cost <= 0xFF_FFFF
}

/// The password and salt lengths `Argon2::hash_password_into` accepts.
pub open spec fn argon2_inputs_ok(password_len: nat, salt_len: nat) -> bool {
    password_len <= 0xFFFF_FFFF && 8 <= salt_len <= 0xFFFF_FFFF
}

/// Argon2id (`argon2::Params::new`, `Argon2::new` and
/// `Argon2::hash_password_into`, 32-byte output). The contract claims that the
/// derivation succeeds exactly when the costs and the password and salt
/// lengths are in the ranges the crate checks, and that the key is a function
/// of the costs, the password and the salt (named by `argon2id_key`).
#[verifier::external_body]
pub(crate) fn argon2id_hash(
    m_cost: u32,
    t_cost: u32,
    p_cost: u32,
    password: &[u8],
    salt: &[u8],
) -> (r: Result<[u8; 32], String>)
    requires
        p_cost <= 0x1FFF_FFFF,
    ensures
        r is Ok <==> (argon2_params_ok(m_cost, t_cost, p_cost) && argon2_inputs_ok(
            password@.len(),
            salt@.len(),
        )),
        r matches Ok(k) ==> k@ == argon2id_key(m_cost, t_cost, p_cost, password@, salt@),
{
    let params = argon2::Params::new(m_cost, t_cost, p_cost, None).map_err(|e| e.to_string())?;
    let argon = argon2::Argon2::new(argon2::Algorithm::Argon2id, argon2::Version::V0x13, params);
    let mut out = [0u8;32];
    argon.hash_password_into(password, salt, &mut out).map_err(|e| e.to_string())?;
    Ok(out)
}

/// The XChaCha20-Poly1305 encryption (ciphertext followed by the tag) of
/// `plaintext` under `key` and `nonce`, with no associated data.
pub uninterp spec fn xchacha_seal(key: Seq<u8>, nonce: Seq<u8>, plaintext: Seq<u8>) -> Seq<u8>;

/// The XChaCha20-Poly1305 decryption of `ciphertext`: `None` when the tag
/// does not authenticate.
pub uninterp spec fn xchacha_open(key: Seq<u8>, nonce: Seq<u8>, ciphertext: Seq<u8>) -> Option<
    Seq<u8>,
>;

/// `XChaCha20Poly1305::encrypt`. The contract claims that encryption fails
/// only for a plaintext of 2^32 - 1 blocks of 64 bytes or more (the cipher's
/// limit), that the ciphertext is a function of key, nonce and plaintext
/// (named by `xchacha_seal`), that it is 16 bytes (the tag) longer than the
/// plaintext, and that decrypting it under the same key and nonce gives the
/// plaintext back (the AEAD's correctness).
#[verifier::external_body]
pub(crate) fn xchacha_encrypt(key: &[u8; 32], nonce: &[u8; 24], plaintext: &[u8]) -> (r: Result<
    Vec<u8>,
    String,
>)
    ensures
        r is Ok <==> plaintext@.len() / 64 < 0xFFFF_FFFF,
        r matches Ok(c) ==> c@ == xchacha_seal(key@, nonce@, plaintext@) && c@.len()
            == plaintext@.len() + 16,
        r matches Ok(c) ==> xchacha_open(key@, nonce@, c@) == Some(plaintext@),
{
    let cipher = chacha20poly1305::XChaCha20Poly1305::new(
        chacha20poly1305::Key::from_slice(key),
    );
    cipher.encrypt(chacha20poly1305::XNonce::from_slice(nonce), plaintext).map_err(
        |e| e.to_string(),
    )
}

/// `XChaCha20Poly1305::decrypt`. The contract claims that the result is the
/// authenticated decryption named by `xchacha_open`.
#[verifier::external_body]
pub(crate) fn xchacha_decrypt(key: &[u8; 32], nonce: &[u8], ciphertext: &[u8]) -> (r: Result<
    Vec<u8>,
    String,
>)
    requires
        nonce@.len() == 24,
    ensures
        r matches Ok(p) ==> xchacha_open(key@, nonce@, ciphertext@) == Some(p@),
        r is Ok <==> xchacha_open(key@, nonce@, ciphertext@) is Some,
{
    let cipher = chacha20poly1305::XChaCha20Poly1305::new(
        chacha20poly1305::Key::from_slice(key),
    );
    cipher.decrypt(chacha20poly1305::XNonce::from_slice(nonce), ciphertext).map_err(
        |e| e.to_string(),
    )
}

/// The standard (padded) base64 encoding of `bytes`.
pub uninterp spec fn b64_encode(bytes: Seq<u8>) -> Seq<char>;

/// The standard base64 decoding of `text`: `None` when it is not valid.
pub uninterp spec fn b64_decode(text: Seq<char>) -> Option<Seq<u8>>;

/// The characters of the standard base64 alphabet, and the padding `=`.
pub open spec fn b64_char(c: char) -> bool {
    let u = c as u32;
    ||| (65 <= u && u <= 90)
    ||| (97 <= u && u <= 122)
    ||| (48 <= u && u <= 57)
    ||| u == 43
    ||| u == 47
    ||| u == 61
}

/// `base64::engine::general_purpose::STANDARD.encode`. The contract claims
/// that the text is a function of the bytes (named by `b64_encode`) written
/// in the standard alphabet with `=` padding, and that decoding it gives the
/// bytes back.
#[verifier::external_body]
pub(crate) fn base64_encode(bytes: &[u8]) -> (r: String)
    requires
        bytes@.len() <= usize::MAX / 2,
    ensures
        r@ == b64_encode(bytes@),
        forall|i: int| 0 <= i < r@.len() ==> b64_char(#[trigger] r@[i]),
        b64_decode(r@) == Some(bytes@),
{
    base64::engine::general_purpose::STANDARD.encode(bytes)
}

/// `base64::engine::general_purpose::STANDARD.decode`. The contract claims
/// that the result is the decoding named by `b64_decode` (the error carries
/// the crate's message).
#[verifier::external_body]
pub(crate) fn base64_decode(text: &str) -> (r: Result<Vec<u8>, String>)
    ensures
        r matches Ok(b) ==> b64_decode(text@) == Some(b@),
        r is Ok <==> b64_decode(text@) is Some,
{
    base64::engine::general_purpose::STANDARD.decode(text).map_err(|e| e.to_string())
}

/// `N` bytes from the operating system's secure random source
/// (`RngCore::try_fill_bytes` on `rand::rngs::OsRng`), or the source's error
/// message when it fails. Nothing is claimed of the bytes, nor of when the
/// source fails.
#[verifier::external_body]
pub(crate) fn random_bytes<const N: usize>() -> (r: Result<[u8; N], String>) {
    let mut buf = [0u8;N];
    rand::RngCore::try_fill_bytes(&mut rand::rngs::OsRng, &mut buf).map_err(|e| e.to_string())?;
    Ok(buf)
}

/// `Zeroize::zeroize` on a key: every byte becomes 0, without unwinding.
#[verifier::external_body]
pub(crate) fn wipe_key(key: &mut [u8; 32])
    ensures
        final(key)@ == Seq::new(32, |i: int| 0u8),
    opens_invariants none
    no_unwind
{
    key.zeroize();
}

/// `String::from_utf8`: succeeds exactly on valid UTF-8, with the decoded
/// chars; the error carries std's message.
#[verifier::external_body]
pub(crate) fn utf8_string(bytes: Vec<u8>) -> (r: Result<String, String>)
    ensures
        r is Ok <==> valid_utf8(bytes@),
        r matches Ok(s) ==> s@ == decode_utf8(bytes@),
{
    String::from_utf8(bytes).map_err(|e| e.to_string())
}

} // verus!
