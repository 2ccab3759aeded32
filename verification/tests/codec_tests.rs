use base64::Engine;
use rkl_client::codec::{decrypt, decrypt_text, encrypt};
use rkl_client::errors::ClientError;
use rkl_client::rpc::process_response;
use rkl_client::session::SessionKey;

fn key_of(byte: u8) -> SessionKey {
    SessionKey::from_bytes(vec![byte; 32]).expect("32 bytes make a key")
}

#[test]
fn round_trip_returns_exact_plaintext() {
    let key = key_of(7);
    for payload in [
        b"".to_vec(),
        b"x".to_vec(),
        b"a longer payload with spaces and \x00 bytes".to_vec(),
        vec![0xffu8; 300],
    ] {
        let text = encrypt(&key, &payload).expect("encrypt succeeds");
        let back = decrypt_text(&key, &text).expect("decrypt succeeds");
        assert_eq!(back, payload);
    }
}

#[test]
fn key_needs_256_bits() {
    assert!(SessionKey::from_bytes(vec![1u8; 31]).is_none());
    assert!(SessionKey::from_bytes(vec![1u8; 33]).is_none());
    assert!(SessionKey::from_bytes(Vec::new()).is_none());
    assert!(SessionKey::from_bytes(vec![1u8; 32]).is_some());
}

#[test]
fn fresh_nonce_every_call() {
    let key = key_of(1);
    let payload = b"same payload".to_vec();
    let first = encrypt(&key, &payload).expect("encrypt succeeds");
    let second = encrypt(&key, &payload).expect("encrypt succeeds");
    assert_ne!(first, second);
}

#[test]
fn short_envelopes_are_rejected() {
    let key = key_of(2);
    for len in [0usize, 1, 5, 11, 12] {
        let envelope = vec![0u8; len];
        assert_eq!(decrypt(&key, &envelope), Err(ClientError::EnvelopeTooShort));
    }
}

#[test]
fn thirteen_bytes_reach_authentication() {
    let key = key_of(2);
    let envelope = vec![0u8; 13];
    assert_eq!(decrypt(&key, &envelope), Err(ClientError::AuthenticationFailure));
}

#[test]
fn flipped_bit_fails_authentication() {
    let key = key_of(3);
    let text = encrypt(&key, b"sensitive").expect("encrypt succeeds");
    let mut envelope = base64::engine::general_purpose::STANDARD
        .decode(&text)
        .expect("envelope text is base64");
    let last = envelope.len() - 1;
    envelope[last] ^= 0x01;
    assert_eq!(decrypt(&key, &envelope), Err(ClientError::AuthenticationFailure));
}

#[test]
fn wrong_key_fails_authentication() {
    let text = encrypt(&key_of(4), b"for one key only").expect("encrypt succeeds");
    assert_eq!(decrypt_text(&key_of(5), &text), Err(ClientError::AuthenticationFailure));
}

#[test]
fn malformed_base64_is_rejected() {
    let key = key_of(6);
    assert_eq!(decrypt_text(&key, "!!! not base64 !!!"), Err(ClientError::Base64DecodingFailure));
}

#[test]
fn response_plaintext_comes_back_as_text() {
    let key = key_of(8);
    let text = encrypt(&key, "a serialized list of entries".as_bytes()).expect("encrypt succeeds");
    let body = base64::engine::general_purpose::STANDARD
        .decode(&text)
        .expect("envelope text is base64");
    let out = process_response(&key, &body).expect("response decrypts");
    assert_eq!(out, "a serialized list of entries");
}

#[test]
fn non_utf8_response_is_a_text_decoding_failure() {
    let key = key_of(9);
    let text = encrypt(&key, &[0xc3u8, 0x28]).expect("encrypt succeeds");
    let body = base64::engine::general_purpose::STANDARD
        .decode(&text)
        .expect("envelope text is base64");
    assert_eq!(process_response(&key, &body), Err(ClientError::TextDecodingFailure));
}

#[test]
fn short_response_body_is_too_short() {
    let key = key_of(9);
    assert_eq!(process_response(&key, &[1u8; 12]), Err(ClientError::EnvelopeTooShort));
}

#[test]
fn error_text_matches_kind() {
    assert_eq!(
        ClientError::SessionNotEstablished.describe(),
        "Session key is not established yet"
    );
    assert_eq!(ClientError::EnvelopeTooShort.describe(), "Unexpected bytes to decrypt.");
}

#[test]
fn add_sums() {
    assert_eq!(rkl_client::add(2, 3), 5);
    assert_eq!(rkl_client::add(0, 0), 0);
}
