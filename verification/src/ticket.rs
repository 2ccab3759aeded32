//! Anti-replay tickets: each request carries the next counter value as a
//! decimal string, encrypted under the session key.

use vstd::prelude::*;

use crate::codec;
use crate::codec::text_envelope_plain;
use crate::digits::dec_of;
use crate::errors::ClientError;
use crate::session::SessionState;

verus! {

/// Issues the next ticket under `session`: increments the counter and returns
/// the new value's decimal string encrypted under the session key, in
/// transport text form, for use as a request header value. Succeeds whenever
/// a session is established; fails exactly while none is.
pub fn next_ticket(session: &mut SessionState) -> (r: Result<String, ClientError>)
    requires
        *old(session) matches SessionState::Established { counter, .. } ==> counter < u64::MAX,
    ensures
        *old(session) is Unestablished ==> *final(session) == *old(session) && r == Err::<
            String,
            ClientError,
        >(ClientError::SessionNotEstablished),
        *old(session) matches SessionState::Established { key, counter } ==> {
            &&& *final(session) == (SessionState::Established {
                key,
                counter: (counter + 1) as u64,
            })
            &&& r is Ok
            &&& (r matches Ok(t) ==> text_envelope_plain(key@, t@) == Some(
                dec_of((counter + 1) as nat),
            ))
        },
{
    match session {
        SessionState::Unestablished => Err(ClientError::SessionNotEstablished),
        SessionState::Established { key, counter } => {
            *counter = *counter + 1;
            let digits = crate::digits::dec_string(*counter);
            proof {
                assert((*counter as nat) < crate::digits::pow10(20)) by {
                    reveal_with_fuel(crate::digits::pow10, 21);
                }
                crate::digits::lemma_dec_of_len(*counter as nat, 20);
            }
            codec::encrypt(key, digits.as_slice())
        },
    }
}

/// Law: sequentially issued tickets carry strictly increasing counter values
/// with no repeats. If each value in a run succeeds the one before it — as
/// `next_ticket` ensures of consecutive calls under one session — then the
/// values are pairwise distinct and ordered.
pub proof fn lemma_tickets_strictly_increase(vals: Seq<nat>)
    requires
        forall|i: int| 0 < i < vals.len() ==> #[trigger] vals[i] == vals[i - 1] + 1,
    ensures
        forall|i: int, j: int| 0 <= i < j < vals.len() ==> vals[i] < vals[j],
    decreases vals.len(),
{
    if vals.len() > 1 {
        let prefix = vals.drop_last();
        assert(forall|i: int| 0 < i < prefix.len() ==> #[trigger] prefix[i] == prefix[i - 1] + 1);
        lemma_tickets_strictly_increase(prefix);
        assert forall|i: int, j: int| 0 <= i < j < vals.len() implies vals[i] < vals[j] by {
            if j < vals.len() - 1 {
                assert(prefix[i] < prefix[j]);
            } else if i < j - 1 {
                assert(prefix[i] < prefix[j - 1]);
            }
        }
    }
}

} // verus!
