//! The client side of the password-authenticated key exchange (SPAKE2 over
//! Ed25519) that derives the session key, and the decoding of the daemon's
//! optional bootstrap ticket header.

use vstd::prelude::*;

use crate::codec::text_envelope_plain;
use crate::digits::{dec_value, is_dec_digits, parse_dec};
use crate::errors::ClientError;
use crate::session::{SessionKey, SessionState};

verus! {

/// The ephemeral client-side state of one exchange — spake2's protocol state,
/// opaque here. It lives only between `start_handshake` and
/// `finish_handshake` and is discarded as soon as the session key is derived.
#[verifier::external_body]
pub struct HandshakeTranscript {
    state: spake2::Spake2<spake2::Ed25519Group>,
}

/// The fixed identity string naming the client role. A domain-separation
/// constant, not a secret; it must match the daemon's configuration exactly.
pub fn client_identity() -> (r: &'static str)
    ensures
        r@ == "rust-keylock-browser-extension"@,
{
    "rust-keylock-browser-extension"
}

/// The fixed identity string naming the daemon role; see `client_identity`.
pub fn daemon_identity() -> (r: &'static str)
    ensures
        r@ == "rust-keylock-lib"@,
{
    "rust-keylock-lib"
}

/// Relies on spake2's Spake2::<Ed25519Group>::start_a: it draws a random
/// scalar from the operating system's generator and returns the protocol
/// state and the client's first message, the side byte 0x41 ('A') followed
/// by a 32-byte group element.
#[verifier::external_body]
fn pake_start(password: &[u8], client_id: &[u8], daemon_id: &[u8]) -> (r: (
    HandshakeTranscript,
    Vec<u8>,
))
    ensures
        r.1@.len() == 33,
        r.1@[0] == 0x41,
{
    let (state, outbound) = spake2::Spake2::<spake2::Ed25519Group>::start_a(
        &spake2::Password::new(password),
        &spake2::Identity::new(client_id),
        &spake2::Identity::new(daemon_id),
    );
    (HandshakeTranscript { state }, outbound)
}

/// Relies on spake2's Spake2::finish: it succeeds exactly on a well-formed
/// daemon message — 33 bytes, the side byte 0x42 ('B'), then a compressed
/// element that decodes to a group point (the transcript here is always the
/// client side, `start_handshake` being its only producer) — and the shared
/// key it derives is a 32-byte SHA-256 transcript digest.
#[verifier::external_body]
fn pake_finish(transcript: HandshakeTranscript, inbound: &[u8]) -> (r: Result<Vec<u8>, ()>)
    ensures
        r matches Ok(k) ==> k@.len() == 32,
        inbound@.len() == 33 && inbound@[0] == 0x42 && ed25519_point_decodes(
            inbound@.subrange(1, 33),
        ) ==> r is Ok,
        !(inbound@.len() == 33 && inbound@[0] == 0x42 && ed25519_point_decodes(
            inbound@.subrange(1, 33),
        )) ==> r is Err,
{
    match transcript.state.finish(inbound) {
        Ok(k) => Ok(k),
        Err(_) => Err(()),
    }
}

/// Whether these 32 bytes are a compressed Edwards Y coordinate that decodes
/// to a point of the Ed25519 group, as curve25519's decompression (reached
/// through spake2's bytes_to_element) decides.
pub uninterp spec fn ed25519_point_decodes(bytes: Seq<u8>) -> bool;

/// Begins the exchange from the password: returns the transcript to keep and
/// the first-message bytes to post to the daemon's exchange endpoint.
pub fn start_handshake(password: &str) -> (r: (HandshakeTranscript, Vec<u8>))
    ensures
        r.1@.len() == 33,
        r.1@[0] == 0x41,
{
    let client_id = client_identity();
    let daemon_id = daemon_identity();
    pake_start(password.as_bytes(), client_id.as_bytes(), daemon_id.as_bytes())
}

/// The view of an optional header value.
pub open spec fn header_view(header: Option<&str>) -> Option<Seq<char>> {
    match header {
        Some(t) => Some(t@),
        None => None,
    }
}

/// The initial ticket counter that the daemon's optional bootstrap header
/// denotes under `key`: the decimal value it carries when the header is
/// present, decrypts under `key` and is numeric; 0 on any failure — a
/// deliberate leniency so a first-time daemon with no prior ticket state can
/// still be connected to.
pub open spec fn spec_bootstrap_counter(key: Seq<u8>, header: Option<Seq<char>>) -> nat {
    match header {
        None => 0,
        Some(text) => match text_envelope_plain(key, text) {
            None => 0,
            Some(plain) => if is_dec_digits(plain) && dec_value(plain) <= u64::MAX {
                dec_value(plain)
            } else {
                0
            },
        },
    }
}

/// Decodes the daemon's bootstrap ticket header under the derived key,
/// defaulting to 0 on any failure (missing header, bad base64, failed
/// decryption, non-numeric content).
pub fn bootstrap_counter(key: &SessionKey, header: Option<&str>) -> (r: u64)
    ensures
        r == spec_bootstrap_counter(key@, header_view(header)),
{
    match header {
        None => 0,
        Some(text) => match crate::codec::decrypt_text(key, text) {
            Err(_) => 0,
            Ok(plain) => match parse_dec(plain.as_slice()) {
                Some(v) => v,
                None => 0,
            },
        },
    }
}

/// Completes the exchange with the daemon's reply: derives the session key
/// and decodes the optional bootstrap ticket header into the initial counter.
/// It succeeds exactly when `inbound` is a well-formed daemon message (33
/// bytes: the side byte 0x42, then a decodable group element); a malformed
/// bootstrap header is not a failure.
pub fn finish_handshake(
    transcript: HandshakeTranscript,
    inbound: &[u8],
    ticket_header: Option<&str>,
) -> (r: Result<(SessionKey, u64), ClientError>)
    ensures
        r matches Ok((key, counter)) ==> counter == spec_bootstrap_counter(
            key@,
            header_view(ticket_header),
        ),
        r is Ok <==> inbound@.len() == 33 && inbound@[0] == 0x42 && ed25519_point_decodes(
            inbound@.subrange(1, 33),
        ),
        r matches Err(e) ==> e == ClientError::HandshakeProtocolFailure,
{
    let key_bytes = match pake_finish(transcript, inbound) {
        Ok(k) => k,
        Err(()) => return Err(ClientError::HandshakeProtocolFailure),
    };
    let key = match SessionKey::from_bytes(key_bytes) {
        Some(k) => k,
        None => return Err(ClientError::HandshakeProtocolFailure),
    };
    let counter = bootstrap_counter(&key, ticket_header);
    Ok((key, counter))
}

/// Finishes the exchange and installs the derived key and initial counter
/// into `session`. It succeeds — exactly on a well-formed daemon message,
/// as `finish_handshake` states — or leaves the session unchanged with no
/// key retained.
pub fn complete_connection(
    session: &mut SessionState,
    transcript: HandshakeTranscript,
    inbound: &[u8],
    ticket_header: Option<&str>,
) -> (r: Result<(), ClientError>)
    ensures
        r is Ok ==> (*final(session) matches SessionState::Established { key, counter }
            && counter == spec_bootstrap_counter(key@, header_view(ticket_header))),
        r is Ok <==> inbound@.len() == 33 && inbound@[0] == 0x42 && ed25519_point_decodes(
            inbound@.subrange(1, 33),
        ),
        r matches Err(e) ==> e == ClientError::HandshakeProtocolFailure && *final(session) == *old(
            session,
        ),
{
    match finish_handshake(transcript, inbound, ticket_header) {
        Ok((key, counter)) => {
            session.establish(key, counter);
            Ok(())
        },
        Err(e) => Err(e),
    }
}

} // verus!
