//! Client core of an authenticated, encrypted channel to a local
//! password-management daemon.
//!
//! A master password is never transmitted: the client runs a
//! password-authenticated key exchange (SPAKE2) with the daemon to agree on a
//! shared 256-bit session key, then uses that key to encrypt every payload
//! (AES-256-GCM, nonce-prefixed envelopes, base64 on the wire) and to stamp
//! each request with an encrypted, strictly increasing anti-replay ticket.

use vstd::prelude::*;

pub mod codec;
pub mod digits;
pub mod errors;
pub mod handshake;
pub mod rpc;
pub mod session;
pub mod ticket;

verus! {

/// Sum of two numbers, exposed to the host environment.
pub fn add(a: u32, b: u32) -> (r: u32)
    requires
        a + b <= u32::MAX,
    ensures
        r == a + b,
{
    a + b
}

} // verus!
