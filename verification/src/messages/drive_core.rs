//! Messages of the vehicle control protocol.
//!
//! A message is a 4-byte little-endian tag followed by its payload:
//! tag 0 and tag 1 carry a 4-byte IEEE-754 single-precision value (held
//! here as its raw 32-bit pattern), tag 2 carries nothing.

use crate::messages::{
    le_bytes32, lemma_le32_bytes_of_word, push_le32, read_le32, word_of_le32, DecodeError,
};
use vstd::prelude::*;

verus! {

/// A message the vehicle control service accepts.
///
/// The command payloads are the raw bit patterns of the 4-byte IEEE-754
/// values carried on the wire; converting a pattern to a scaled integer
/// command is the business of [`crate::fixed`].
#[derive(Clone, Copy, Debug, PartialEq, Eq, Structural)]
pub enum MessageType {
    /// Commands a new steering position; payload in `[-1, 1]`.
    SetSteering(u32),
    /// Commands a new throttle/brake position; payload in `[-1, 1]`.
    SetThrottle(u32),
    /// Ends the session gracefully.
    Bye,
}

/// The exact byte image of a control message.
pub open spec fn msg_bytes(m: MessageType) -> Seq<u8> {
    match m {
        MessageType::SetSteering(v) => seq![0u8, 0u8, 0u8, 0u8] + le_bytes32(v),
        MessageType::SetThrottle(v) => seq![1u8, 0u8, 0u8, 0u8] + le_bytes32(v),
        MessageType::Bye => seq![2u8, 0u8, 0u8, 0u8],
    }
}

/// What decoding a byte sequence yields: the message at its head, with
/// any bytes beyond the recognized variant ignored.
pub open spec fn parse(s: Seq<u8>) -> Result<MessageType, DecodeError> {
    if s.len() < 4 {
        Err(DecodeError::Truncated)
    } else {
        let tag = word_of_le32(s[0], s[1], s[2], s[3]);
        if tag == 0 {
            if s.len() < 8 {
                Err(DecodeError::Truncated)
            } else {
                Ok(MessageType::SetSteering(word_of_le32(s[4], s[5], s[6], s[7])))
            }
        } else if tag == 1 {
            if s.len() < 8 {
                Err(DecodeError::Truncated)
            } else {
                Ok(MessageType::SetThrottle(word_of_le32(s[4], s[5], s[6], s[7])))
            }
        } else if tag == 2 {
            Ok(MessageType::Bye)
        } else {
            Err(DecodeError::UnknownTag)
        }
    }
}

/// How many bytes the message starting with tag word `tag` occupies.
pub open spec fn spec_frame_len(tag: u32) -> Option<int> {
    if tag == 0 || tag == 1 {
        Some(8int)
    } else if tag == 2 {
        Some(4int)
    } else {
        None
    }
}

/// Encodes a message as its exact wire image.
pub fn encode(msg: &MessageType) -> (r: Vec<u8>)
    ensures
        r@ == msg_bytes(*msg),
{
    let mut out: Vec<u8> = Vec::new();
    match msg {
        MessageType::SetSteering(v) => {
            push_le32(&mut out, 0);
            push_le32(&mut out, *v);
            proof {
                assert(word_of_le32(0, 0, 0, 0) == 0) by (bit_vector);
                lemma_le32_bytes_of_word(0, 0, 0, 0);
                assert(out@ =~= msg_bytes(*msg));
            }
        },
        MessageType::SetThrottle(v) => {
            push_le32(&mut out, 1);
            push_le32(&mut out, *v);
            proof {
                assert(word_of_le32(1, 0, 0, 0) == 1) by (bit_vector);
                lemma_le32_bytes_of_word(1, 0, 0, 0);
                assert(out@ =~= msg_bytes(*msg));
            }
        },
        MessageType::Bye => {
            push_le32(&mut out, 2);
            proof {
                assert(word_of_le32(2, 0, 0, 0) == 2) by (bit_vector);
                lemma_le32_bytes_of_word(2, 0, 0, 0);
                assert(out@ =~= msg_bytes(*msg));
            }
        },
    }
    out
}

/// Decodes the message at the head of `bytes`; trailing bytes after a
/// complete message are ignored.
pub fn decode(bytes: &[u8]) -> (r: Result<MessageType, DecodeError>)
    ensures
        r == parse(bytes@),
{
    if bytes.len() < 4 {
        return Err(DecodeError::Truncated);
    }
    let tag = read_le32(bytes, 0);
    if tag == 0 || tag == 1 {
        if bytes.len() < 8 {
            return Err(DecodeError::Truncated);
        }
        let v = read_le32(bytes, 4);
        if tag == 0 {
            Ok(MessageType::SetSteering(v))
        } else {
            Ok(MessageType::SetThrottle(v))
        }
    } else if tag == 2 {
        Ok(MessageType::Bye)
    } else {
        Err(DecodeError::UnknownTag)
    }
}

/// Tells from a 4-byte tag prefix how long the whole message is, so a
/// reader can fetch exactly the remaining payload before decoding.
pub fn frame_len(prefix: &[u8]) -> (r: Result<usize, DecodeError>)
    requires
        prefix@.len() >= 4,
    ensures
        match r {
            Ok(n) => spec_frame_len(word_of_le32(prefix@[0], prefix@[1], prefix@[2], prefix@[3]))
                == Some(n as int),
            Err(e) => e == DecodeError::UnknownTag && spec_frame_len(
                word_of_le32(prefix@[0], prefix@[1], prefix@[2], prefix@[3]),
            ) is None,
        },
{
    let tag = read_le32(prefix, 0);
    if tag == 0 || tag == 1 {
        Ok(8)
    } else if tag == 2 {
        Ok(4)
    } else {
        Err(DecodeError::UnknownTag)
    }
}

/// Decoding the image of any message, with any trailing bytes, yields
/// exactly that message back.
pub proof fn lemma_round_trip(m: MessageType, extra: Seq<u8>)
    ensures
        parse(msg_bytes(m) + extra) == Ok::<MessageType, DecodeError>(m),
{
    let s = msg_bytes(m) + extra;
    match m {
        MessageType::SetSteering(v) => {
            assert(word_of_le32(0, 0, 0, 0) == 0) by (bit_vector);
            lemma_le32_bytes_of_word(0, 0, 0, 0);
            assert(s[0] == 0u8 && s[1] == 0u8 && s[2] == 0u8 && s[3] == 0u8);
            assert(s[4] == le_bytes32(v)[0] && s[5] == le_bytes32(v)[1] && s[6] == le_bytes32(v)[2]
                && s[7] == le_bytes32(v)[3]);
            crate::messages::lemma_le32_round_trip(v);
        },
        MessageType::SetThrottle(v) => {
            assert(word_of_le32(1, 0, 0, 0) == 1) by (bit_vector);
            lemma_le32_bytes_of_word(1, 0, 0, 0);
            assert(s[0] == 1u8 && s[1] == 0u8 && s[2] == 0u8 && s[3] == 0u8);
            assert(s[4] == le_bytes32(v)[0] && s[5] == le_bytes32(v)[1] && s[6] == le_bytes32(v)[2]
                && s[7] == le_bytes32(v)[3]);
            crate::messages::lemma_le32_round_trip(v);
        },
        MessageType::Bye => {
            assert(word_of_le32(2, 0, 0, 0) == 2) by (bit_vector);
            lemma_le32_bytes_of_word(2, 0, 0, 0);
            assert(s[0] == 2u8 && s[1] == 0u8 && s[2] == 0u8 && s[3] == 0u8);
            assert(word_of_le32(2, 0, 0, 0) == 2) by (bit_vector);
        },
    }
}

} // verus!
