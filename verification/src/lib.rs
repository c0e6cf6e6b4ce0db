//! A cross-chain token-claim ledger.
//!
//! A user who was granted a token entitlement on a foreign chain claims the
//! equivalent tokens here. An external attestation service hands this library
//! an already-authenticated byte envelope; the library decodes it under strict
//! tag and size rules, records the entitlement exactly once, and later lets
//! exactly the named user consume exactly that amount exactly once.
//!
//! The host process performs the actual asset transfer and all account I/O;
//! this crate holds the codec, the emitter registry rules, and the claim
//! state machine, each with a verified contract.

use vstd::prelude::*;

pub mod message;
pub mod state;

use crate::message::BridgeMessage;
use crate::message::Envelope;
use crate::message::spec_parse;
use crate::state::received::Received;
use crate::state::received::UserState;
use crate::state::received::MESSAGE_MAX_LENGTH;
use crate::state::received::spec_entitlement_user;
use crate::state::received::spec_entitlement_amount;
use crate::state::received::ENTITLEMENT_LENGTH;

verus! {

/// The local chain's reserved identifier; no foreign emitter may claim it.
pub const CHAIN_ID_SOLANA: u16 = 1;

/// Owner-scoped global configuration: the identity allowed to act as the
/// transfer authority when an entitlement is claimed.
pub struct State {
    pub owner: [u8; 32],
}

/// Authorization and precondition failures of the claim operation.
#[derive(Clone, Copy, Debug, PartialEq, Eq, Structural)]
pub enum CustomError {
    Unauthorized,
    InvalidOwner,
    InvalidUser,
    InvalidAmount,
}

/// Failures of emitter registration and message receipt.
#[derive(Clone, Copy, Debug, PartialEq, Eq, Structural)]
pub enum BridgeMessageError {
    InvalidForeignEmitter,
    InvalidMessage,
}

/// An allow-listed (chain, address) pair permitted to originate messages.
pub struct ForeignEmitter {
    pub chain: u16,
    pub address: [u8; 32],
}

/// Accounts touched by `initialize`.
pub struct Initialize {
    pub state: State,
}

/// Accounts touched by `claim_token`: the global configuration, the
/// recipient's stored entitlement, and the identities of the two accounts
/// the host would move funds between.
pub struct ClaimToken {
    pub state: State,
    pub user_info: UserState,
    pub user: [u8; 32],
    pub owner: [u8; 32],
}

/// Accounts touched by `receive_message`: the append-only audit record and
/// the recipient's entitlement record.
pub struct ReceiveMessage {
    pub received: Received,
    pub user_info: UserState,
}

/// One-shot setup: fixes the owner identity in the global configuration.
pub fn initialize(ctx: &mut Initialize, owner: [u8; 32]) -> (r: Result<(), CustomError>)
    ensures
        r is Ok,
        final(ctx).state.owner == owner,
{
    ctx.state.owner = owner;
    Ok(())
}

/// An all-zero 32-byte identifier, the sentinel no emitter may use.
pub open spec fn spec_is_zero_address(a: Seq<u8>) -> bool {
    forall|i: int| 0 <= i < a.len() ==> a[i] == 0
}

/// A (chain, address) pair an administrator may put on the allow-list:
/// a real chain id that is not the local chain's own, and a nonzero address.
pub open spec fn spec_emitter_allowed(chain: u16, address: Seq<u8>) -> bool {
    chain > 0 && chain != CHAIN_ID_SOLANA && !spec_is_zero_address(address)
}

impl ForeignEmitter {
    /// Whether this allow-list entry covers the given origin.
    pub fn is_registered(&self, chain: u16, address: &[u8; 32]) -> (r: bool)
        ensures
            r <==> (self.chain == chain && self.address@ == address@),
    {
        self.chain == chain && bytes32_eq(&self.address, address)
    }
}

/// Puts a foreign emitter on the allow-list, overwriting any earlier entry.
/// A zero chain id, the local chain's own id, and the all-zero address are
/// each rejected, and rejection changes nothing.
pub fn register_emitter(emitter: &mut ForeignEmitter, chain: u16, address: [u8; 32]) -> (r: Result<
    (),
    BridgeMessageError,
>)
    ensures
        r is Ok <==> spec_emitter_allowed(chain, address@),
        r is Ok ==> final(emitter).chain == chain && final(emitter).address == address,
        r is Err ==> r == Err::<(), BridgeMessageError>(BridgeMessageError::InvalidForeignEmitter)
            && *final(emitter) == *old(emitter),
{
    if chain == 0 || chain == CHAIN_ID_SOLANA || is_zero_address(&address) {
        return Err(BridgeMessageError::InvalidForeignEmitter);
    }
    emitter.chain = chain;
    emitter.address = address;
    Ok(())
}

/// Byte-for-byte equality of two 32-byte identifiers.
pub fn bytes32_eq(a: &[u8; 32], b: &[u8; 32]) -> (r: bool)
    ensures
        r <==> a@ == b@,
{
    for i in 0..32
        invariant
            forall|j: int| 0 <= j < i ==> a@[j] == b@[j],
    {
        if a[i] != b[i] {
            return false;
        }
    }
    proof {
        assert(a@ =~= b@);
    }
    true
}

/// Whether a 32-byte identifier is the all-zero sentinel.
pub fn is_zero_address(a: &[u8; 32]) -> (r: bool)
    ensures
        r <==> spec_is_zero_address(a@),
{
    for i in 0..32
        invariant
            forall|j: int| 0 <= j < i ==> a@[j] == 0,
    {
        if a[i] != 0 {
            return false;
        }
    }
    true
}

/// What a claim against the given accounts yields: the checks in order, then
/// the stored amount. Success needs the calling account to be the stored
/// recipient, a nonzero stored amount, and the configured owner as the
/// transfer authority.
pub open spec fn spec_claim_result(c: ClaimToken) -> Result<u64, CustomError> {
    if c.user_info.user@ != c.user@ {
        Err(CustomError::InvalidUser)
    } else if c.user_info.amount == 0 {
        Err(CustomError::InvalidAmount)
    } else if c.state.owner@ != c.owner@ {
        Err(CustomError::InvalidOwner)
    } else {
        Ok(c.user_info.amount)
    }
}

/// The accounts after a successful claim: the entitlement consumed, all else
/// untouched.
pub open spec fn spec_claim_post(c: ClaimToken) -> ClaimToken {
    ClaimToken { user_info: UserState { user: c.user_info.user, amount: 0 }, ..c }
}

/// Consumes the caller's pending entitlement and reports the amount the host
/// must transfer. The stored amount is zeroed before the host is told to
/// move funds, so a second claim of the same record can never pay out again;
/// on any failure the accounts are untouched. The host performs the actual
/// transfer with the returned amount and, if the transfer fails, discards
/// the updated accounts as a unit, so claim-plus-transfer is all-or-nothing.
pub fn claim_token(ctx: &mut ClaimToken) -> (r: Result<u64, CustomError>)
    ensures
        r == spec_claim_result(*old(ctx)),
        r is Ok ==> *final(ctx) == spec_claim_post(*old(ctx)),
        r is Err ==> *final(ctx) == *old(ctx),
{
    let amount = ctx.user_info.amount;

    if !bytes32_eq(&ctx.user_info.user, &ctx.user) {
        return Err(CustomError::InvalidUser);
    }
    if amount == 0 {
        return Err(CustomError::InvalidAmount);
    }
    if !bytes32_eq(&ctx.state.owner, &ctx.owner) {
        return Err(CustomError::InvalidOwner);
    }

    ctx.user_info.amount = 0;
    Ok(amount)
}

/// The `UserInfo` payload of an envelope, for envelopes that carry one.
pub open spec fn spec_receive_payload(env: Seq<u8>) -> Seq<u8> {
    match spec_parse(env) {
        Ok(Envelope::UserInfo { message }) => message,
        _ => Seq::empty(),
    }
}

/// The envelopes the receive operation accepts: a well-formed `UserInfo`
/// message whose payload fits the storage bound and is exactly one
/// entitlement record.
pub open spec fn spec_receive_accepts(env: Seq<u8>) -> bool {
    &&& spec_parse(env) matches Ok(Envelope::UserInfo { .. })
    &&& spec_receive_payload(env).len() <= MESSAGE_MAX_LENGTH
    &&& spec_receive_payload(env).len() == ENTITLEMENT_LENGTH
}

/// A byte-for-byte copy of a payload.
fn copy_bytes(v: &Vec<u8>) -> (r: Vec<u8>)
    ensures
        r@ == v@,
{
    let mut r: Vec<u8> = Vec::new();
    for i in 0..v.len()
        invariant
            r@ == v@.subrange(0, i as int),
    {
        r.push(v[i]);
    }
    proof {
        assert(v@.subrange(0, v@.len() as int) == v@);
    }
    r
}

/// Takes one attested envelope from the external attestation service,
/// validates it whole, and only then records it: the audit record keeps the
/// raw payload with the batch id and the digest, and the recipient's
/// entitlement is overwritten with the decoded record (last write wins).
/// Anything but a `UserInfo` envelope carrying exactly one entitlement
/// record within the storage bound is rejected, and rejection changes
/// nothing.
pub fn receive_message(
    ctx: &mut ReceiveMessage,
    envelope: &Vec<u8>,
    batch_id: u32,
    vaa_hash: [u8; 32],
) -> (r: Result<(), BridgeMessageError>)
    ensures
        r is Ok <==> spec_receive_accepts(envelope@),
        r is Ok ==> {
            let payload = spec_receive_payload(envelope@);
            &&& final(ctx).received.batch_id == batch_id
            &&& final(ctx).received.wormhole_message_hash == vaa_hash
            &&& final(ctx).received.message@ == payload
            &&& final(ctx).received.well_formed()
            &&& final(ctx).user_info.user@ == spec_entitlement_user(payload)
            &&& final(ctx).user_info.amount == spec_entitlement_amount(payload)
        },
        r is Err ==> r == Err::<(), BridgeMessageError>(BridgeMessageError::InvalidMessage)
            && *final(ctx) == *old(ctx),
{
    match BridgeMessage::decode(envelope) {
        Ok(BridgeMessage::UserInfo { message }) => {
            if message.len() > MESSAGE_MAX_LENGTH {
                return Err(BridgeMessageError::InvalidMessage);
            }
            let raw = copy_bytes(&message);
            match UserState::decode(message) {
                Ok(user_state) => {
                    ctx.received.batch_id = batch_id;
                    ctx.received.wormhole_message_hash = vaa_hash;
                    ctx.received.message = raw;
                    ctx.user_info = user_state;
                    Ok(())
                },
                Err(_) => Err(BridgeMessageError::InvalidMessage),
            }
        },
        Ok(BridgeMessage::Alive { .. }) => Err(BridgeMessageError::InvalidMessage),
        Err(_) => Err(BridgeMessageError::InvalidMessage),
    }
}

/// No-double-spend law: once a claim has succeeded, a second claim against
/// the resulting accounts fails with `InvalidAmount` and authorizes no
/// transfer.
pub proof fn lemma_no_double_spend(c: ClaimToken)
    requires
        spec_claim_result(c) is Ok,
    ensures
        spec_claim_result(spec_claim_post(c)) == Err::<u64, CustomError>(CustomError::InvalidAmount),
{
}

} // verus!
