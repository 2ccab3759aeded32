//! Session-key lifecycle: no session vs. an established session holding the
//! derived 256-bit key and the anti-replay ticket counter.

use vstd::prelude::*;

use crate::errors::ClientError;
use vstd::slice::slice_to_vec;

verus! {

/// An opaque 256-bit symmetric secret, produced once per handshake and owned
/// by the session state until explicitly cleared.
pub struct SessionKey {
    bytes: Vec<u8>,
}

impl View for SessionKey {
    type V = Seq<u8>;

    closed spec fn view(&self) -> Seq<u8> {
        self.bytes@
    }
}

impl SessionKey {
    #[verifier::type_invariant]
    spec fn inv(self) -> bool {
        self.bytes@.len() == 32
    }

    /// Builds a key from raw bytes; succeeds exactly on 256-bit input.
    pub fn from_bytes(bytes: Vec<u8>) -> (r: Option<SessionKey>)
        ensures
            bytes@.len() == 32 ==> (r matches Some(k) && k@ == bytes@),
            bytes@.len() != 32 ==> r is None,
    {
        if bytes.len() == 32 {
            Some(SessionKey { bytes })
        } else {
            None
        }
    }

    /// The raw key bytes.
    pub fn as_bytes(&self) -> (r: &[u8])
        ensures
            r@ == self@,
            r@.len() == 32,
    {
        proof {
            use_type_invariant(self);
        }
        self.bytes.as_slice()
    }

    /// An identical copy of the key.
    pub fn duplicate(&self) -> (r: SessionKey)
        ensures
            r@ == self@,
    {
        proof {
            use_type_invariant(self);
        }
        SessionKey { bytes: slice_to_vec(self.bytes.as_slice()) }
    }
}

/// Whether a session is established, and if so under which key and at which
/// ticket counter. The counter never decreases while the session lasts; a
/// `clear` forgets both, and only a fresh handshake establishes them again.
pub enum SessionState {
    Unestablished,
    Established { key: SessionKey, counter: u64 },
}

impl SessionState {
    /// A fresh state with no session.
    pub fn new() -> (s: SessionState)
        ensures
            s is Unestablished,
    {
        SessionState::Unestablished
    }

    /// Installs a freshly derived key and the daemon's initial ticket
    /// counter, overwriting any prior session.
    pub fn establish(&mut self, key: SessionKey, counter: u64)
        ensures
            *final(self) == (SessionState::Established { key, counter }),
    {
        *self = SessionState::Established { key, counter };
    }

    /// Forgets any session. Idempotent.
    pub fn clear(&mut self)
        ensures
            *final(self) is Unestablished,
    {
        *self = SessionState::Unestablished;
    }

    /// Whether a session is currently established.
    pub fn is_established(&self) -> (b: bool)
        ensures
            b == (self is Established),
    {
        match self {
            SessionState::Established { .. } => true,
            SessionState::Unestablished => false,
        }
    }

    /// The session key; fails while no session is established.
    pub fn current_key(&self) -> (r: Result<SessionKey, ClientError>)
        ensures
            self is Established ==> (r matches Ok(k) && k@ == self->key@),
            self is Unestablished ==> r == Err::<SessionKey, ClientError>(
                ClientError::SessionNotEstablished,
            ),
    {
        match self {
            SessionState::Established { key, .. } => Ok(key.duplicate()),
            SessionState::Unestablished => Err(ClientError::SessionNotEstablished),
        }
    }

    /// The ticket counter; fails while no session is established.
    pub fn current_counter(&self) -> (r: Result<u64, ClientError>)
        ensures
            self is Established ==> r == Ok::<u64, ClientError>(self->counter),
            self is Unestablished ==> r == Err::<u64, ClientError>(
                ClientError::SessionNotEstablished,
            ),
    {
        match self {
            SessionState::Established { counter, .. } => Ok(*counter),
            SessionState::Unestablished => Err(ClientError::SessionNotEstablished),
        }
    }
}

} // verus!
