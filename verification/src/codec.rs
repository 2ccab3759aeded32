//! Symmetric AEAD framing of payloads in transit.
//!
//! An envelope is a fresh random 12-byte nonce followed by the AES-256-GCM
//! ciphertext and its 16-byte tag; its transport form is that byte layout in
//! standard base64 without line wrapping. Nonce-prefixed framing avoids a
//! separate nonce channel, and per-message randomness is used because the
//! client has no durable counter storage between page loads.

use vstd::prelude::*;

use crate::errors::ClientError;
use crate::session::SessionKey;
use aes_gcm::KeyInit;
use aes_gcm::aead::Aead;
use aes_gcm::aead::Generate;
use base64::Engine;
use vstd::slice::slice_subrange;

verus! {

/// What AES-256-GCM produces for this key, nonce and plaintext: the
/// ciphertext with the 16-byte tag appended.
pub uninterp spec fn aead_seal(key: Seq<u8>, nonce: Seq<u8>, plain: Seq<u8>) -> Seq<u8>;

/// What AES-256-GCM decryption returns for this key, nonce and ciphertext:
/// the plaintext when the tag verifies, nothing otherwise.
pub uninterp spec fn aead_open(key: Seq<u8>, nonce: Seq<u8>, cipher_text: Seq<u8>) -> Option<
    Seq<u8>,
>;

/// The standard padded base64 text of these bytes.
pub uninterp spec fn b64_text(bytes: Seq<u8>) -> Seq<char>;

/// What standard padded base64 decoding returns for this text: the bytes it
/// encodes, or nothing when the text is not valid base64.
pub uninterp spec fn b64_bytes(text: Seq<char>) -> Option<Seq<u8>>;

/// The plaintext that envelope `env` carries under `key`: its first 12 bytes
/// are the nonce, the rest the ciphertext and tag. `None` when the envelope
/// is no longer than the nonce or the tag does not verify.
pub open spec fn envelope_plain(key: Seq<u8>, env: Seq<u8>) -> Option<Seq<u8>> {
    if env.len() <= 12 {
        None
    } else {
        aead_open(key, env.subrange(0, 12), env.subrange(12, env.len() as int))
    }
}

/// The plaintext that the base64 transport form `text` carries under `key`.
pub open spec fn text_envelope_plain(key: Seq<u8>, text: Seq<char>) -> Option<Seq<u8>> {
    match b64_bytes(text) {
        Some(env) => envelope_plain(key, env),
        None => None,
    }
}

/// How `decrypt` reports on an envelope: the carried plaintext, or the exact
/// error for a short or inauthentic envelope.
pub open spec fn decrypt_outcome(
    key: Seq<u8>,
    env: Seq<u8>,
    r: Result<Vec<u8>, ClientError>,
) -> bool {
    if env.len() <= 12 {
        r == Err::<Vec<u8>, ClientError>(ClientError::EnvelopeTooShort)
    } else {
        match envelope_plain(key, env) {
            Some(p) => r matches Ok(v) && v@ == p,
            None => r == Err::<Vec<u8>, ClientError>(ClientError::AuthenticationFailure),
        }
    }
}

/// Relies on aes_gcm's Aes256Gcm through aead::Aead::encrypt: AES-256-GCM is
/// a function of key, nonce and plaintext alone; it appends a 16-byte tag to
/// the ciphertext, decrypting its output under the same key and nonce yields
/// the plaintext back, and it fails only on a plaintext above the cipher's
/// documented bound of 2^36 - 32 bytes.
#[verifier::external_body]
pub(crate) fn aes_gcm_seal(key: &[u8], nonce: &[u8], plain: &[u8]) -> (r: Result<Vec<u8>, ()>)
    requires
        key@.len() == 32,
        nonce@.len() == 12,
    ensures
        r matches Ok(ct) ==> ct@ == aead_seal(key@, nonce@, plain@) && ct@.len() == plain@.len()
            + 16 && aead_open(key@, nonce@, ct@) == Some(plain@),
        plain@.len() <= 0xF_FFFF_FFE0 ==> r is Ok,
{
    let cipher = match aes_gcm::Aes256Gcm::new_from_slice(key) {
        Ok(c) => c,
        Err(_) => return Err(()),
    };
    let nonce = match aes_gcm::aead::Nonce::<aes_gcm::Aes256Gcm>::try_from(nonce) {
        Ok(n) => n,
        Err(_) => return Err(()),
    };
    cipher.encrypt(&nonce, plain).map_err(|_| ())
}

/// Relies on aes_gcm's Aes256Gcm through aead::Aead::decrypt: it returns the
/// plaintext exactly when the tag over the ciphertext verifies under this key
/// and nonce, and fails otherwise.
#[verifier::external_body]
pub(crate) fn aes_gcm_open(key: &[u8], nonce: &[u8], cipher_text: &[u8]) -> (r: Result<
    Vec<u8>,
    (),
>)
    requires
        key@.len() == 32,
        nonce@.len() == 12,
    ensures
        r matches Ok(p) ==> aead_open(key@, nonce@, cipher_text@) == Some(p@),
        r is Err ==> aead_open(key@, nonce@, cipher_text@) is None,
{
    let cipher = match aes_gcm::Aes256Gcm::new_from_slice(key) {
        Ok(c) => c,
        Err(_) => return Err(()),
    };
    let nonce = match aes_gcm::aead::Nonce::<aes_gcm::Aes256Gcm>::try_from(nonce) {
        Ok(n) => n,
        Err(_) => return Err(()),
    };
    cipher.decrypt(&nonce, cipher_text).map_err(|_| ())
}

/// Relies on base64's STANDARD engine through Engine::encode: the padded
/// standard alphabet without line wrapping, a function of the bytes alone;
/// decoding its output yields the bytes back.
#[verifier::external_body]
pub(crate) fn base64_encode(bytes: &[u8]) -> (r: String)
    ensures
        r@ == b64_text(bytes@),
        b64_bytes(r@) == Some(bytes@),
{
    base64::engine::general_purpose::STANDARD.encode(bytes)
}

/// Relies on base64's STANDARD engine through Engine::decode: it recovers the
/// encoded bytes exactly when the text is valid padded standard base64.
#[verifier::external_body]
pub(crate) fn base64_decode(text: &str) -> (r: Result<Vec<u8>, ()>)
    ensures
        r matches Ok(v) ==> b64_bytes(text@) == Some(v@),
        r is Err ==> b64_bytes(text@) is None,
{
    base64::engine::general_purpose::STANDARD.decode(text.as_bytes()).map_err(|_| ())
}

/// Relies on the Generate impl that aes_gcm re-exports for nonces: 12 fresh
/// bytes from the operating system's secure random generator.
#[verifier::external_body]
fn fresh_nonce() -> (r: Vec<u8>)
    ensures
        r@.len() == 12,
{
    let nonce = aes_gcm::aead::Nonce::<aes_gcm::Aes256Gcm>::generate();
    nonce.to_vec()
}

/// Encrypts `plaintext` under `key` into transport text form: a fresh random
/// 12-byte nonce, the AEAD ciphertext and tag, all base64-encoded. The
/// produced text decodes to an envelope of exactly 12 + |plaintext| + 16
/// bytes that carries `plaintext` under `key`, so decrypting it under the
/// same key yields `plaintext` back. It succeeds on every plaintext up to
/// the cipher's bound of 2^36 - 32 bytes.
pub fn encrypt(key: &SessionKey, plaintext: &[u8]) -> (r: Result<String, ClientError>)
    ensures
        r matches Ok(text) ==> text_envelope_plain(key@, text@) == Some(plaintext@),
        r matches Ok(text) ==> (b64_bytes(text@) matches Some(env) && env.len() == 12
            + plaintext@.len() + 16),
        plaintext@.len() <= 0xF_FFFF_FFE0 ==> r is Ok,
        r matches Err(e) ==> e == ClientError::CipherFailure,
{
    let nonce = fresh_nonce();
    let mut cipher_text = match aes_gcm_seal(key.as_bytes(), nonce.as_slice(), plaintext) {
        Ok(ct) => ct,
        Err(()) => return Err(ClientError::CipherFailure),
    };
    let ghost g_nonce = nonce@;
    let ghost g_ct = cipher_text@;
    let mut envelope = nonce;
    envelope.append(&mut cipher_text);
    proof {
        assert(envelope@.subrange(0, 12) =~= g_nonce);
        assert(envelope@.subrange(12, envelope@.len() as int) =~= g_ct);
    }
    Ok(base64_encode(envelope.as_slice()))
}

/// Splits `envelope` into nonce and ciphertext and opens it under `key`.
/// Fails with a length error when the envelope is no longer than the 12-byte
/// nonce, with an authentication error when the tag does not verify
/// (tampering, wrong key, or corrupted transport), and returns the carried
/// plaintext otherwise.
pub fn decrypt(key: &SessionKey, envelope: &[u8]) -> (r: Result<Vec<u8>, ClientError>)
    ensures
        decrypt_outcome(key@, envelope@, r),
{
    if envelope.len() <= 12 {
        return Err(ClientError::EnvelopeTooShort);
    }
    let nonce = slice_subrange(envelope, 0, 12);
    let cipher_text = slice_subrange(envelope, 12, envelope.len());
    match aes_gcm_open(key.as_bytes(), nonce, cipher_text) {
        Ok(p) => Ok(p),
        Err(()) => Err(ClientError::AuthenticationFailure),
    }
}

/// Decodes the base64 transport form (failing on malformed base64) and
/// delegates to `decrypt`.
pub fn decrypt_text(key: &SessionKey, text: &str) -> (r: Result<Vec<u8>, ClientError>)
    ensures
        b64_bytes(text@) matches Some(env) ==> decrypt_outcome(key@, env, r),
        b64_bytes(text@) is None ==> r == Err::<Vec<u8>, ClientError>(
            ClientError::Base64DecodingFailure,
        ),
{
    let envelope = match base64_decode(text) {
        Ok(env) => env,
        Err(()) => return Err(ClientError::Base64DecodingFailure),
    };
    decrypt(key, envelope.as_slice())
}

/// Law: decryption inverts encryption. Any transport text that carries
/// plaintext `plain` under `key` — as every text produced by `encrypt` does —
/// is reported back as exactly `plain` by a decryption with the right
/// outcome.
pub proof fn lemma_decrypt_inverts_encrypt(
    key: Seq<u8>,
    text: Seq<char>,
    plain: Seq<u8>,
    r: Result<Vec<u8>, ClientError>,
)
    requires
        text_envelope_plain(key, text) == Some(plain),
        b64_bytes(text) matches Some(env) && decrypt_outcome(key, env, r),
    ensures
        r matches Ok(v) && v@ == plain,
{
}

} // verus!
