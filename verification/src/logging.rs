//! The boundary to the telemetry logging collaborator.
//!
//! A variable is announced with a `Register` message; the collaborator
//! answers with `Acknowledge(id)`, and changes are then pushed as
//! `Log(id, value)` records by a [`crate::session::CoreListener`]
//! attached to the variable. The protocol decisions live here, fully
//! verified; the surrounding process moves the bytes.

pub mod data_types;

use crate::messages::logger::{msg_bytes, msg_wf, MessageType, MsgModel};
use vstd::prelude::*;
use vstd::slice::slice_to_vec;

verus! {

/// Builds the `Register` request announcing a variable under `name`
/// with the type named by `typename`.
pub fn registration_request(name: &[u8], typename: &[u8]) -> (r: Vec<u8>)
    requires
        name@.len() <= 0xffff,
        typename@.len() <= 0xffff,
    ensures
        r@ == msg_bytes(MsgModel::Register(name@, typename@)),
{
    let msg = MessageType::Register(slice_to_vec(name), slice_to_vec(typename));
    proof {
        assert(msg_wf(msg@));
    }
    crate::messages::logger::encode(&msg)
}

/// Reads the granted log id out of the collaborator's reply to a
/// `Register` request. Any reply but an `Acknowledge` is unexpected
/// and refused.
pub fn registration_reply_id(reply: &MessageType) -> (r: Result<i32, String>)
    ensures
        match reply@ {
            MsgModel::Acknowledge(id) => r == Ok::<i32, String>(id),
            _ => r is Err,
        },
{
    match reply {
        MessageType::Acknowledge(id) => Ok(*id),
        _ => Err("Unexpected response from logging service".to_owned()),
    }
}

} // verus!
