//! Error taxonomy of the client core.
//!
//! Every failure is surfaced to the caller as one of these kinds; none is
//! retried internally and none aborts the process.

use vstd::prelude::*;

verus! {

/// The ways an operation of this library can fail.
#[derive(Clone, Copy, Debug, PartialEq, Eq, Structural)]
pub enum ClientError {
    /// A read operation or ticket was requested before a successful handshake.
    SessionNotEstablished,
    /// The key exchange could not be completed from the daemon's reply.
    HandshakeProtocolFailure,
    /// An encrypted envelope was no longer than the 12-byte nonce prefix.
    EnvelopeTooShort,
    /// The AEAD tag did not verify: wrong key, corruption, or tampering.
    AuthenticationFailure,
    /// A decrypted payload was not valid UTF-8 text.
    TextDecodingFailure,
    /// A transport-form envelope was not valid base64.
    Base64DecodingFailure,
    /// The underlying cipher failed to seal a payload (fatal, unexpected).
    CipherFailure,
    /// A request or response could not be exchanged with the daemon.
    TransportFailure,
}

impl ClientError {
    /// The descriptive text of this kind for the caller, in place of a
    /// `Display` impl.
    pub fn describe(&self) -> (r: String)
        ensures
            self is SessionNotEstablished ==> r@ == "Session key is not established yet"@,
            self is HandshakeProtocolFailure ==> r@ == "The key exchange with the daemon failed"@,
            self is EnvelopeTooShort ==> r@ == "Unexpected bytes to decrypt."@,
            self is AuthenticationFailure ==> r@ == "The envelope failed authentication"@,
            self is TextDecodingFailure ==> r@ == "The decrypted payload is not UTF-8 text"@,
            self is Base64DecodingFailure ==> r@ == "The envelope is not valid base64"@,
            self is CipherFailure ==> r@ == "The cipher could not seal the payload"@,
            self is TransportFailure ==> r@ == "The daemon could not be reached"@,
    {
        match self {
            ClientError::SessionNotEstablished => "Session key is not established yet".to_owned(),
            ClientError::HandshakeProtocolFailure => "The key exchange with the daemon failed".to_owned(),
            ClientError::EnvelopeTooShort => "Unexpected bytes to decrypt.".to_owned(),
            ClientError::AuthenticationFailure => "The envelope failed authentication".to_owned(),
            ClientError::TextDecodingFailure => "The decrypted payload is not UTF-8 text".to_owned(),
            ClientError::Base64DecodingFailure => "The envelope is not valid base64".to_owned(),
            ClientError::CipherFailure => "The cipher could not seal the payload".to_owned(),
            ClientError::TransportFailure => "The daemon could not be reached".to_owned(),
        }
    }
}

} // verus!
