//! Building the messages that carry numbers in their payload.

use crate::types::message::{Message, MessageCode, MessageModel};
use crate::utils::endian::{be_bytes, push_be};
use vstd::prelude::*;

verus! {

/// A `request` for `length` bytes of piece `index`, starting at `begin`:
/// the three numbers in four bytes each, most significant byte first.
pub open spec fn request_message(index: u32, begin: u32, length: u32) -> MessageModel {
    MessageModel {
        id: MessageCode::MessageRequest,
        payload: be_bytes(index) + be_bytes(begin) + be_bytes(length),
    }
}

/// A `have` for piece `index`: the index in four bytes, most significant
/// byte first.
pub open spec fn have_message(index: u32) -> MessageModel {
    MessageModel { id: MessageCode::MessageHave, payload: be_bytes(index) }
}

impl Message {
    /// Asks for one block of a piece.
    pub fn format_request(index: u32, begin: u32, length: u32) -> (message: Message)
        ensures
            message@ == request_message(index, begin, length),
    {
        let mut request: Vec<u8> = Vec::new();
        push_be(&mut request, index);
        push_be(&mut request, begin);
        push_be(&mut request, length);
        assert(request@ =~= be_bytes(index) + be_bytes(begin) + be_bytes(length));
        Message::new(MessageCode::MessageRequest, request)
    }

    /// Announces that a piece is now held.
    pub fn format_have(index: u32) -> (message: Message)
        ensures
            message@ == have_message(index),
    {
        let mut have: Vec<u8> = Vec::new();
        push_be(&mut have, index);
        assert(have@ =~= be_bytes(index));
        Message::new(MessageCode::MessageHave, have)
    }
}

} // verus!
