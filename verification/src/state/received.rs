//! The entitlement record, its fixed-layout decoder, and the audit record
//! kept for every accepted message.

use vstd::prelude::*;

verus! {

/// The largest payload the stored audit record can hold. This storage bound
/// is deliberately wider than the wire codec's own limit; both are enforced.
pub const MESSAGE_MAX_LENGTH: usize = 1024;

/// An entitlement payload is exactly a 32-byte recipient identity followed
/// by a little-endian unsigned 64-bit amount.
pub const ENTITLEMENT_LENGTH: usize = 40;

/// A recipient's pending claimable amount.
pub struct UserState {
    pub user: [u8; 32],
    pub amount: u64,
}

/// Decoder failures.
#[derive(Clone, Copy, Debug, PartialEq, Eq, Structural)]
pub enum CustomError {
    /// The payload is not exactly [`ENTITLEMENT_LENGTH`] bytes.
    MalformedEntitlement,
}

/// The recipient identity bytes of an entitlement payload.
pub open spec fn spec_entitlement_user(s: Seq<u8>) -> Seq<u8>
    recommends
        s.len() == ENTITLEMENT_LENGTH,
{
    s.subrange(0, 32)
}

/// The amount of an entitlement payload: bytes 32..40 read as a
/// little-endian unsigned 64-bit integer.
pub open spec fn spec_entitlement_amount(s: Seq<u8>) -> int
    recommends
        s.len() == ENTITLEMENT_LENGTH,
{
    s[32] + s[33] * 0x100 + s[34] * 0x1_0000 + s[35] * 0x100_0000 + s[36] * 0x1_0000_0000 + s[37]
        * 0x100_0000_0000 + s[38] * 0x1_0000_0000_0000 + s[39] * 0x100_0000_0000_0000
}

impl UserState {
    /// Parses an entitlement payload. Anything but exactly
    /// [`ENTITLEMENT_LENGTH`] bytes is rejected, never truncated.
    pub fn decode(data: Vec<u8>) -> (r: Result<UserState, CustomError>)
        ensures
            r is Ok <==> data@.len() == ENTITLEMENT_LENGTH,
            r matches Ok(u) ==> {
                &&& u.user@ == spec_entitlement_user(data@)
                &&& u.amount == spec_entitlement_amount(data@)
            },
            data@.len() != ENTITLEMENT_LENGTH ==> r == Err::<UserState, CustomError>(
                CustomError::MalformedEntitlement,
            ),
    {
        if data.len() != ENTITLEMENT_LENGTH {
            return Err(CustomError::MalformedEntitlement);
        }
        let mut user = [0u8; 32];
        for i in 0..32
            invariant
                data@.len() == ENTITLEMENT_LENGTH,
                forall|j: int| 0 <= j < i ==> user@[j] == data@[j],
        {
            user[i] = data[i];
        }
        proof {
            assert(user@ =~= spec_entitlement_user(data@));
        }
        let amount: u64 = (data[32] as u64) + (data[33] as u64) * 0x100 + (data[34] as u64)
            * 0x1_0000 + (data[35] as u64) * 0x100_0000 + (data[36] as u64) * 0x1_0000_0000 + (
        data[37] as u64) * 0x100_0000_0000 + (data[38] as u64) * 0x1_0000_0000_0000 + (
        data[39] as u64) * 0x100_0000_0000_0000;
        Ok(UserState { user, amount })
    }
}

/// Append-only audit record of one accepted message.
pub struct Received {
    /// AKA nonce: the batch identifier the attestation service assigned.
    pub batch_id: u32,
    /// Digest of the verified message, as handed in by the attestation service.
    pub wormhole_message_hash: [u8; 32],
    /// The raw `UserInfo` payload.
    pub message: Vec<u8>,
}

impl Received {
    /// Bytes of storage the record needs at most: an 8-byte discriminator,
    /// the batch id, the hash, a 4-byte length prefix, and the payload.
    pub const MAXIMUM_SIZE: usize = 8 + 4 + 32 + 4 + MESSAGE_MAX_LENGTH;

    /// The record never holds a payload over the storage bound.
    pub open spec fn well_formed(&self) -> bool {
        self.message@.len() <= MESSAGE_MAX_LENGTH
    }
}

} // verus!
