//! The verified halves of the read operations: issuing the ticket header
//! before the request goes out, and decrypting and decoding the response body
//! that comes back. The transport itself (an HTTP GET against the daemon) is
//! the caller's to run.

use vstd::prelude::*;

use crate::codec::{envelope_plain, text_envelope_plain};
use crate::digits::dec_of;
use crate::errors::ClientError;
use crate::session::{SessionKey, SessionState};

verus! {

/// What UTF-8 decoding returns for these bytes: their text exactly when they
/// are well-formed UTF-8, nothing otherwise.
pub uninterp spec fn utf8_text(bytes: Seq<u8>) -> Option<Seq<char>>;

/// Relies on String::from_utf8: UTF-8 decoding is a function of the bytes
/// alone, succeeding exactly on well-formed UTF-8.
#[verifier::external_body]
fn utf8_decode(bytes: Vec<u8>) -> (r: Result<String, ()>)
    ensures
        r matches Ok(s) ==> utf8_text(bytes@) == Some(s@),
        r is Err ==> utf8_text(bytes@) is None,
{
    match String::from_utf8(bytes) {
        Ok(s) => Ok(s),
        Err(_) => Err(()),
    }
}

/// What a read operation returns for the response body `body` under `key`:
/// the carried plaintext as text, or the exact error when the envelope is
/// short, inauthentic, or not UTF-8.
pub open spec fn response_outcome(
    key: Seq<u8>,
    body: Seq<u8>,
    r: Result<String, ClientError>,
) -> bool {
    if body.len() <= 12 {
        r == Err::<String, ClientError>(ClientError::EnvelopeTooShort)
    } else {
        match envelope_plain(key, body) {
            None => r == Err::<String, ClientError>(ClientError::AuthenticationFailure),
            Some(plain) => match utf8_text(plain) {
                Some(text) => r matches Ok(s) && s@ == text,
                None => r == Err::<String, ClientError>(ClientError::TextDecodingFailure),
            },
        }
    }
}

/// Decrypts a read endpoint's response body — a raw AEAD envelope, not
/// base64 — under the session key and decodes the plaintext as UTF-8 text.
pub fn process_response(key: &SessionKey, body: &[u8]) -> (r: Result<String, ClientError>)
    ensures
        response_outcome(key@, body@, r),
{
    let plain = match crate::codec::decrypt(key, body) {
        Ok(p) => p,
        Err(e) => return Err(e),
    };
    match utf8_decode(plain) {
        Ok(text) => Ok(text),
        Err(()) => Err(ClientError::TextDecodingFailure),
    }
}

/// The verified first half of every read operation: fails fast with a
/// session error while no session is established; otherwise it succeeds,
/// issuing a fresh ticket header and handing back the session key under
/// which both the ticket and the coming response are encrypted.
pub fn begin_read(session: &mut SessionState) -> (r: Result<(SessionKey, String), ClientError>)
    requires
        *old(session) matches SessionState::Established { counter, .. } ==> counter < u64::MAX,
    ensures
        *old(session) is Unestablished ==> *final(session) == *old(session) && r == Err::<
            (SessionKey, String),
            ClientError,
        >(ClientError::SessionNotEstablished),
        *old(session) matches SessionState::Established { key, counter } ==> {
            &&& *final(session) == (SessionState::Established {
                key,
                counter: (counter + 1) as u64,
            })
            &&& r is Ok
            &&& (r matches Ok((k, t)) ==> k@ == key@ && text_envelope_plain(key@, t@) == Some(
                dec_of((counter + 1) as nat),
            ))
        },
{
    let ticket = match crate::ticket::next_ticket(session) {
        Ok(t) => t,
        Err(e) => return Err(e),
    };
    let key = match session.current_key() {
        Ok(k) => k,
        Err(e) => return Err(e),
    };
    Ok((key, ticket))
}

} // verus!
