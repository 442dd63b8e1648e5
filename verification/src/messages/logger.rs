//! Messages of the telemetry logging protocol.
//!
//! A client first sends `Register(name, typename)` and is answered with
//! `Acknowledge(id)`; it then pushes `Log(id, value)` messages under that
//! id. A message is a 4-byte little-endian tag followed by its payload;
//! strings travel as a 2-byte little-endian length prefix followed by
//! their raw bytes.

use crate::messages::{
    le_bytes16, le_bytes32, lemma_le16_round_trip, lemma_le32_bytes_of_word,
    lemma_le32_round_trip, push_le16, push_le32, read_le16, read_le32, word_of_le16, word_of_le32,
    DecodeError,
};
use vstd::prelude::*;
use vstd::slice::{slice_subrange, slice_to_vec};

verus! {

/// A message of the telemetry logging protocol. Variable names and type
/// names are carried as raw bytes; a logged value is the raw 32-bit
/// pattern of the 4-byte IEEE-754 value on the wire.
#[derive(Debug)]
pub enum MessageType {
    /// Announces a variable by name and type name.
    Register(Vec<u8>, Vec<u8>),
    /// Grants the log id under which values are pushed.
    Acknowledge(i32),
    /// Pushes one value under a granted log id.
    Log(i32, u32),
}

/// The mathematical image of a telemetry message.
pub enum MsgModel {
    Register(Seq<u8>, Seq<u8>),
    Acknowledge(i32),
    Log(i32, u32),
}

impl View for MessageType {
    type V = MsgModel;

    open spec fn view(&self) -> MsgModel {
        match self {
            MessageType::Register(name, typename) => MsgModel::Register(name@, typename@),
            MessageType::Acknowledge(id) => MsgModel::Acknowledge(*id),
            MessageType::Log(id, value) => MsgModel::Log(*id, *value),
        }
    }
}

/// Whether the message fits the wire format: each string's length must
/// fit its 2-byte prefix.
pub open spec fn msg_wf(m: MsgModel) -> bool {
    match m {
        MsgModel::Register(name, typename) => name.len() <= 0xffff && typename.len() <= 0xffff,
        _ => true,
    }
}

/// The exact byte image of a telemetry message.
pub open spec fn msg_bytes(m: MsgModel) -> Seq<u8> {
    match m {
        MsgModel::Register(name, typename) => seq![0u8, 0u8, 0u8, 0u8] + le_bytes16(
            name.len() as u16,
        ) + name + le_bytes16(typename.len() as u16) + typename,
        MsgModel::Acknowledge(id) => seq![1u8, 0u8, 0u8, 0u8] + le_bytes32(id as u32),
        MsgModel::Log(id, value) => seq![2u8, 0u8, 0u8, 0u8] + le_bytes32(id as u32) + le_bytes32(
            value,
        ),
    }
}

/// What decoding a byte sequence yields: the message at its head, with
/// any bytes beyond the recognized variant ignored.
pub open spec fn parse(s: Seq<u8>) -> Result<MsgModel, DecodeError> {
    if s.len() < 4 {
        Err(DecodeError::Truncated)
    } else {
        let tag = word_of_le32(s[0], s[1], s[2], s[3]);
        if tag == 0 {
            if s.len() < 6 {
                Err(DecodeError::Truncated)
            } else {
                let name_len = word_of_le16(s[4], s[5]) as int;
                if s.len() < 6 + name_len + 2 {
                    Err(DecodeError::Truncated)
                } else {
                    let type_off = 6 + name_len;
                    let type_len = word_of_le16(s[type_off], s[type_off + 1]) as int;
                    if s.len() < type_off + 2 + type_len {
                        Err(DecodeError::Truncated)
                    } else {
                        Ok(
                            MsgModel::Register(
                                s.subrange(6, 6 + name_len),
                                s.subrange(type_off + 2, type_off + 2 + type_len),
                            ),
                        )
                    }
                }
            }
        } else if tag == 1 {
            if s.len() < 8 {
                Err(DecodeError::Truncated)
            } else {
                Ok(MsgModel::Acknowledge(word_of_le32(s[4], s[5], s[6], s[7]) as i32))
            }
        } else if tag == 2 {
            if s.len() < 12 {
                Err(DecodeError::Truncated)
            } else {
                Ok(
                    MsgModel::Log(
                        word_of_le32(s[4], s[5], s[6], s[7]) as i32,
                        word_of_le32(s[8], s[9], s[10], s[11]),
                    ),
                )
            }
        } else {
            Err(DecodeError::UnknownTag)
        }
    }
}

/// Encodes a message as its exact wire image.
pub fn encode(msg: &MessageType) -> (r: Vec<u8>)
    requires
        msg_wf(msg@),
    ensures
        r@ == msg_bytes(msg@),
{
    let mut out: Vec<u8> = Vec::new();
    match msg {
        MessageType::Register(name, typename) => {
            push_le32(&mut out, 0);
            push_le16(&mut out, name.len() as u16);
            proof {
                assert(word_of_le32(0, 0, 0, 0) == 0) by (bit_vector);
                lemma_le32_bytes_of_word(0, 0, 0, 0);
                assert(name@.subrange(0, 0) =~= Seq::<u8>::empty());
                assert(out@ =~= seq![0u8, 0u8, 0u8, 0u8] + le_bytes16(name@.len() as u16)
                    + name@.subrange(0, 0));
            }
            let mut i: usize = 0;
            while i < name.len()
                invariant
                    i <= name@.len(),
                    out@ == seq![0u8, 0u8, 0u8, 0u8] + le_bytes16(name@.len() as u16)
                        + name@.subrange(0, i as int),
                decreases name@.len() - i,
            {
                out.push(name[i]);
                proof {
                    assert(name@.subrange(0, i + 1) =~= name@.subrange(0, i as int).push(
                        name@[i as int],
                    ));
                    assert(out@ =~= seq![0u8, 0u8, 0u8, 0u8] + le_bytes16(name@.len() as u16)
                        + name@.subrange(0, i + 1));
                }
                i = i + 1;
            }
            push_le16(&mut out, typename.len() as u16);
            proof {
                assert(name@.subrange(0, name@.len() as int) =~= name@);
                assert(typename@.subrange(0, 0) =~= Seq::<u8>::empty());
                assert(out@ =~= seq![0u8, 0u8, 0u8, 0u8] + le_bytes16(name@.len() as u16) + name@
                    + le_bytes16(typename@.len() as u16) + typename@.subrange(0, 0));
            }
            let mut j: usize = 0;
            while j < typename.len()
                invariant
                    j <= typename@.len(),
                    out@ == seq![0u8, 0u8, 0u8, 0u8] + le_bytes16(name@.len() as u16) + name@
                        + le_bytes16(typename@.len() as u16) + typename@.subrange(0, j as int),
                decreases typename@.len() - j,
            {
                out.push(typename[j]);
                proof {
                    assert(typename@.subrange(0, j + 1) =~= typename@.subrange(0, j as int).push(
                        typename@[j as int],
                    ));
                    assert(out@ =~= seq![0u8, 0u8, 0u8, 0u8] + le_bytes16(name@.len() as u16)
                        + name@ + le_bytes16(typename@.len() as u16) + typename@.subrange(
                        0,
                        j + 1,
                    ));
                }
                j = j + 1;
            }
            proof {
                assert(word_of_le32(0, 0, 0, 0) == 0) by (bit_vector);
                lemma_le32_bytes_of_word(0, 0, 0, 0);
                assert(name@.subrange(0, name@.len() as int) =~= name@);
                assert(typename@.subrange(0, typename@.len() as int) =~= typename@);
                assert(out@ =~= msg_bytes(msg@));
            }
        },
        MessageType::Acknowledge(id) => {
            push_le32(&mut out, 1);
            push_le32(&mut out, *id as u32);
            proof {
                assert(word_of_le32(1, 0, 0, 0) == 1) by (bit_vector);
                lemma_le32_bytes_of_word(1, 0, 0, 0);
                assert(out@ =~= msg_bytes(msg@));
            }
        },
        MessageType::Log(id, value) => {
            push_le32(&mut out, 2);
            push_le32(&mut out, *id as u32);
            push_le32(&mut out, *value);
            proof {
                assert(word_of_le32(2, 0, 0, 0) == 2) by (bit_vector);
                lemma_le32_bytes_of_word(2, 0, 0, 0);
                assert(out@ =~= msg_bytes(msg@));
            }
        },
    }
    out
}

/// Decodes the message at the head of `bytes`; trailing bytes after a
/// complete message are ignored.
pub fn decode(bytes: &[u8]) -> (r: Result<MessageType, DecodeError>)
    ensures
        match r {
            Ok(m) => parse(bytes@) == Ok::<MsgModel, DecodeError>(m@),
            Err(e) => parse(bytes@) == Err::<MsgModel, DecodeError>(e),
        },
{
    if bytes.len() < 4 {
        return Err(DecodeError::Truncated);
    }
    let tag = read_le32(bytes, 0);
    if tag == 0 {
        if bytes.len() < 6 {
            return Err(DecodeError::Truncated);
        }
        let name_len = read_le16(bytes, 4) as usize;
        if bytes.len() < 6 + name_len + 2 {
            return Err(DecodeError::Truncated);
        }
        let type_off = 6 + name_len;
        let type_len = read_le16(bytes, type_off) as usize;
        if bytes.len() < type_off + 2 + type_len {
            return Err(DecodeError::Truncated);
        }
        let name = slice_to_vec(slice_subrange(bytes, 6, 6 + name_len));
        let typename = slice_to_vec(slice_subrange(bytes, type_off + 2, type_off + 2 + type_len));
        Ok(MessageType::Register(name, typename))
    } else if tag == 1 {
        if bytes.len() < 8 {
            return Err(DecodeError::Truncated);
        }
        Ok(MessageType::Acknowledge(read_le32(bytes, 4) as i32))
    } else if tag == 2 {
        if bytes.len() < 12 {
            return Err(DecodeError::Truncated);
        }
        let id = read_le32(bytes, 4) as i32;
        let value = read_le32(bytes, 8);
        Ok(MessageType::Log(id, value))
    } else {
        Err(DecodeError::UnknownTag)
    }
}

/// Truncating a 32-bit pattern to a signed word and back changes nothing.
proof fn lemma_i32_word_round_trip(id: i32)
    ensures
        (id as u32) as i32 == id,
{
    assert((id as u32) as i32 == id) by (bit_vector);
}

/// Decoding the image of any well-formed message, with any trailing
/// bytes, yields exactly that message back.
pub proof fn lemma_round_trip(m: MsgModel, extra: Seq<u8>)
    requires
        msg_wf(m),
    ensures
        parse(msg_bytes(m) + extra) == Ok::<MsgModel, DecodeError>(m),
{
    let s = msg_bytes(m) + extra;
    match m {
        MsgModel::Register(name, typename) => {
            assert(word_of_le32(0, 0, 0, 0) == 0) by (bit_vector);
            lemma_le32_bytes_of_word(0, 0, 0, 0);
            assert(s[0] == 0u8 && s[1] == 0u8 && s[2] == 0u8 && s[3] == 0u8);
            let nl = name.len() as u16;
            let tl = typename.len() as u16;
            lemma_le16_round_trip(nl);
            lemma_le16_round_trip(tl);
            assert(s[4] == le_bytes16(nl)[0] && s[5] == le_bytes16(nl)[1]);
            assert(word_of_le16(s[4], s[5]) == nl);
            let type_off = 6 + name.len() as int;
            assert(s[type_off] == le_bytes16(tl)[0] && s[type_off + 1] == le_bytes16(tl)[1]);
            assert(word_of_le16(s[type_off], s[type_off + 1]) == tl);
            assert(s.subrange(6, 6 + name.len() as int) =~= name);
            assert(s.subrange(type_off + 2, type_off + 2 + typename.len() as int) =~= typename);
        },
        MsgModel::Acknowledge(id) => {
            assert(word_of_le32(1, 0, 0, 0) == 1) by (bit_vector);
            lemma_le32_bytes_of_word(1, 0, 0, 0);
            assert(s[0] == 1u8 && s[1] == 0u8 && s[2] == 0u8 && s[3] == 0u8);
            let w = id as u32;
            lemma_le32_round_trip(w);
            assert(s[4] == le_bytes32(w)[0] && s[5] == le_bytes32(w)[1] && s[6] == le_bytes32(w)[2]
                && s[7] == le_bytes32(w)[3]);
            lemma_i32_word_round_trip(id);
        },
        MsgModel::Log(id, value) => {
            assert(word_of_le32(2, 0, 0, 0) == 2) by (bit_vector);
            lemma_le32_bytes_of_word(2, 0, 0, 0);
            assert(s[0] == 2u8 && s[1] == 0u8 && s[2] == 0u8 && s[3] == 0u8);
            let w = id as u32;
            lemma_le32_round_trip(w);
            lemma_le32_round_trip(value);
            assert(s[4] == le_bytes32(w)[0] && s[5] == le_bytes32(w)[1] && s[6] == le_bytes32(w)[2]
                && s[7] == le_bytes32(w)[3]);
            assert(s[8] == le_bytes32(value)[0] && s[9] == le_bytes32(value)[1] && s[10]
                == le_bytes32(value)[2] && s[11] == le_bytes32(value)[3]);
            lemma_i32_word_round_trip(id);
        },
    }
}

} // verus!
