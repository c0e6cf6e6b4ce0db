//! The tagged wire format for cross-chain messages.
//!
//! A message is one tag byte followed by the variant's fields:
//! tag `0` (`Alive`) carries a 32-byte program identifier; tag `1`
//! (`UserInfo`) carries a 2-byte big-endian length and that many payload
//! bytes, at most [`BRIDGE_MESSAGE_MAX_LENGTH`]. Any other tag is invalid.

use vstd::prelude::*;

verus! {

/// The largest payload a `UserInfo` message may carry on the wire.
pub const BRIDGE_MESSAGE_MAX_LENGTH: usize = 512;

/// Wire tag of the `Alive` variant.
pub const PAYLOAD_ID_ALIVE: u8 = 0;

/// Wire tag of the `UserInfo` variant.
pub const PAYLOAD_ID_USER_INFO: u8 = 1;

/// Expected message types for this program.
/// * `Alive`: liveness/handshake message naming the originating program.
/// * `UserInfo`: carries an opaque entitlement payload.
#[derive(Clone, Debug, PartialEq)]
pub enum BridgeMessage {
    Alive { program_id: [u8; 32] },
    UserInfo { message: Vec<u8> },
}

/// Mathematical model of a message: the same two variants over sequences.
pub enum Envelope {
    Alive { program_id: Seq<u8> },
    UserInfo { message: Seq<u8> },
}

impl View for BridgeMessage {
    type V = Envelope;

    open spec fn view(&self) -> Envelope {
        match self {
            BridgeMessage::Alive { program_id } => Envelope::Alive { program_id: program_id@ },
            BridgeMessage::UserInfo { message } => Envelope::UserInfo { message: message@ },
        }
    }
}

/// Codec failures.
#[derive(Clone, Copy, Debug, PartialEq, Eq, Structural)]
pub enum MessageError {
    /// The first byte is not a recognized variant tag.
    InvalidTag,
    /// A `UserInfo` payload exceeds the wire limit.
    PayloadTooLarge,
    /// The buffer ends before the bytes the tag and length declare.
    Truncated,
}

/// An envelope the wire format can represent: identifiers are 32 bytes and
/// a `UserInfo` payload respects the wire limit.
pub open spec fn spec_valid(e: Envelope) -> bool {
    match e {
        Envelope::Alive { program_id } => program_id.len() == 32,
        Envelope::UserInfo { message } => message.len() <= BRIDGE_MESSAGE_MAX_LENGTH,
    }
}

/// The byte encoding of a valid envelope.
pub open spec fn spec_encode(e: Envelope) -> Seq<u8> {
    match e {
        Envelope::Alive { program_id } => seq![PAYLOAD_ID_ALIVE] + program_id,
        Envelope::UserInfo { message } => seq![
            PAYLOAD_ID_USER_INFO,
            (message.len() / 256) as u8,
            (message.len() % 256) as u8,
        ] + message,
    }
}

/// Reads one envelope from the front of `s`; trailing bytes beyond the
/// declared structure are the caller's concern and are ignored.
pub open spec fn spec_parse(s: Seq<u8>) -> Result<Envelope, MessageError> {
    if s.len() < 1 {
        Err(MessageError::Truncated)
    } else if s[0] == PAYLOAD_ID_ALIVE {
        if s.len() < 33 {
            Err(MessageError::Truncated)
        } else {
            Ok(Envelope::Alive { program_id: s.subrange(1, 33) })
        }
    } else if s[0] == PAYLOAD_ID_USER_INFO {
        if s.len() < 3 {
            Err(MessageError::Truncated)
        } else {
            let len = s[1] * 256 + s[2];
            if len > BRIDGE_MESSAGE_MAX_LENGTH {
                Err(MessageError::PayloadTooLarge)
            } else if s.len() < 3 + len {
                Err(MessageError::Truncated)
            } else {
                Ok(Envelope::UserInfo { message: s.subrange(3, 3 + len) })
            }
        }
    } else {
        Err(MessageError::InvalidTag)
    }
}

/// The model of an exec decode result.
pub open spec fn spec_decoded(r: Result<BridgeMessage, MessageError>) -> Result<
    Envelope,
    MessageError,
> {
    match r {
        Ok(m) => Ok(m@),
        Err(e) => Err(e),
    }
}

impl BridgeMessage {
    /// Encodes the message: the tag byte, then the variant's fields.
    /// A `UserInfo` payload over the wire limit is rejected whole; nothing
    /// partial is ever produced.
    pub fn encode(&self) -> (r: Result<Vec<u8>, MessageError>)
        ensures
            spec_valid(self@) ==> (r matches Ok(bytes) && bytes@ == spec_encode(self@)),
            !spec_valid(self@) ==> r == Err::<Vec<u8>, MessageError>(MessageError::PayloadTooLarge),
    {
        match self {
            BridgeMessage::Alive { program_id } => {
                let mut out: Vec<u8> = Vec::new();
                out.push(PAYLOAD_ID_ALIVE);
                for i in 0..32
                    invariant
                        out@ == seq![PAYLOAD_ID_ALIVE] + program_id@.subrange(0, i as int),
                {
                    out.push(program_id[i]);
                }
                proof {
                    assert(program_id@.subrange(0, 32) == program_id@);
                }
                Ok(out)
            },
            BridgeMessage::UserInfo { message } => {
                if message.len() > BRIDGE_MESSAGE_MAX_LENGTH {
                    Err(MessageError::PayloadTooLarge)
                } else {
                    let len = message.len();
                    let hi = (len / 256) as u8;
                    let lo = (len % 256) as u8;
                    let mut out: Vec<u8> = Vec::new();
                    out.push(PAYLOAD_ID_USER_INFO);
                    out.push(hi);
                    out.push(lo);
                    for i in 0..len
                        invariant
                            len == message@.len(),
                            out@ == seq![PAYLOAD_ID_USER_INFO, hi, lo] + message@.subrange(
                                0,
                                i as int,
                            ),
                    {
                        out.push(message[i]);
                    }
                    proof {
                        assert(message@.subrange(0, len as int) == message@);
                    }
                    Ok(out)
                }
            },
        }
    }

    /// Decodes one envelope from the front of `buf`. Trailing bytes beyond
    /// the declared structure are left for the caller; the ensures on
    /// [`spec_parse`] pin which bytes are read and what each failure means.
    pub fn decode(buf: &Vec<u8>) -> (r: Result<BridgeMessage, MessageError>)
        ensures
            spec_decoded(r) == spec_parse(buf@),
            buf@.len() >= 1 && buf@[0] != PAYLOAD_ID_ALIVE && buf@[0] != PAYLOAD_ID_USER_INFO
                ==> r == Err::<BridgeMessage, MessageError>(MessageError::InvalidTag),
    {
        if buf.len() < 1 {
            return Err(MessageError::Truncated);
        }
        let tag = buf[0];
        if tag == PAYLOAD_ID_ALIVE {
            if buf.len() < 33 {
                return Err(MessageError::Truncated);
            }
            let mut program_id = [0u8; 32];
            for i in 0..32
                invariant
                    buf@.len() >= 33,
                    forall|j: int| 0 <= j < i ==> program_id@[j] == buf@[1 + j],
            {
                program_id[i] = buf[1 + i];
            }
            proof {
                assert(program_id@ =~= buf@.subrange(1, 33));
            }
            Ok(BridgeMessage::Alive { program_id })
        } else if tag == PAYLOAD_ID_USER_INFO {
            if buf.len() < 3 {
                return Err(MessageError::Truncated);
            }
            let len: usize = (buf[1] as usize) * 256 + (buf[2] as usize);
            if len > BRIDGE_MESSAGE_MAX_LENGTH {
                return Err(MessageError::PayloadTooLarge);
            }
            if buf.len() < 3 + len {
                return Err(MessageError::Truncated);
            }
            let mut message: Vec<u8> = Vec::new();
            for i in 0..len
                invariant
                    len <= BRIDGE_MESSAGE_MAX_LENGTH,
                    buf@.len() >= 3 + len,
                    message@ == buf@.subrange(3, 3 + i as int),
            {
                message.push(buf[3 + i]);
            }
            Ok(BridgeMessage::UserInfo { message })
        } else {
            Err(MessageError::InvalidTag)
        }
    }
}

/// Round-trip law: decoding the encoding of any valid envelope yields the
/// envelope itself.
pub proof fn lemma_round_trip(e: Envelope)
    requires
        spec_valid(e),
    ensures
        spec_parse(spec_encode(e)) == Ok::<Envelope, MessageError>(e),
{
    match e {
        Envelope::Alive { program_id } => {
            let s = spec_encode(e);
            assert(s.subrange(1, 33) =~= program_id);
        },
        Envelope::UserInfo { message } => {
            let s = spec_encode(e);
            let len = message.len() as int;
            assert(s[1] * 256 + s[2] == len);
            assert(s.subrange(3, 3 + len) =~= message);
        },
    }
}

/// A successful parse consumes exactly the bytes the envelope's own encoding
/// occupies: the encoding is a prefix of the input, and everything after it
/// was ignored.
pub proof fn lemma_parse_prefix(s: Seq<u8>, e: Envelope)
    requires
        spec_parse(s) == Ok::<Envelope, MessageError>(e),
    ensures
        spec_valid(e),
        spec_encode(e).len() <= s.len(),
        s.subrange(0, spec_encode(e).len() as int) == spec_encode(e),
{
    if s[0] == PAYLOAD_ID_ALIVE {
        assert(s.subrange(0, 33) =~= spec_encode(e));
    } else {
        let len = s[1] * 256 + s[2];
        assert(s[1] == len / 256 && s[2] == len % 256) by (nonlinear_arith)
            requires len == s[1] * 256 + s[2], 0 <= s[1] < 256, 0 <= s[2] < 256;
        assert(s.subrange(0, 3 + len) =~= spec_encode(e));
    }
}

} // verus!
