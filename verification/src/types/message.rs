//! Messages and handshakes as values.

use crate::shared::SizedBytes;
use vstd::prelude::*;
use vstd::std_specs::convert::FromSpecImpl;

verus! {

/// What a message means. A frame of length zero carries no code and is
/// read as `MessageKeepAlive`; a code that the protocol does not define
/// is read as `MessageUnknown`.
#[derive(Debug, Clone, Copy, PartialEq, Eq, Structural)]
pub enum MessageCode {
    MessageChoke,
    MessageUnchoke,
    MessageInterested,
    MessageNotInterested,
    MessageHave,
    MessageBitfield,
    MessageRequest,
    MessagePiece,
    MessageCancel,
    MessageKeepAlive,
    MessageUnknown,
}

/// The byte that stands for a code on the wire.
pub open spec fn code_to_byte(code: MessageCode) -> u8 {
    match code {
        MessageCode::MessageChoke => 0,
        MessageCode::MessageUnchoke => 1,
        MessageCode::MessageInterested => 2,
        MessageCode::MessageNotInterested => 3,
        MessageCode::MessageHave => 4,
        MessageCode::MessageBitfield => 5,
        MessageCode::MessageRequest => 6,
        MessageCode::MessagePiece => 7,
        MessageCode::MessageCancel => 8,
        MessageCode::MessageKeepAlive => 254,
        MessageCode::MessageUnknown => 255,
    }
}

/// The code that a byte of the wire stands for.
pub open spec fn code_from_byte(byte: u8) -> MessageCode {
    match byte {
        0 => MessageCode::MessageChoke,
        1 => MessageCode::MessageUnchoke,
        2 => MessageCode::MessageInterested,
        3 => MessageCode::MessageNotInterested,
        4 => MessageCode::MessageHave,
        5 => MessageCode::MessageBitfield,
        6 => MessageCode::MessageRequest,
        7 => MessageCode::MessagePiece,
        8 => MessageCode::MessageCancel,
        254 => MessageCode::MessageKeepAlive,
        _ => MessageCode::MessageUnknown,
    }
}

impl From<u8> for MessageCode {
    fn from(id: u8) -> (code: MessageCode) {
        match id {
            0 => MessageCode::MessageChoke,
            1 => MessageCode::MessageUnchoke,
            2 => MessageCode::MessageInterested,
            3 => MessageCode::MessageNotInterested,
            4 => MessageCode::MessageHave,
            5 => MessageCode::MessageBitfield,
            6 => MessageCode::MessageRequest,
            7 => MessageCode::MessagePiece,
            8 => MessageCode::MessageCancel,
            254 => MessageCode::MessageKeepAlive,
            _ => MessageCode::MessageUnknown,
        }
    }
}

impl FromSpecImpl<u8> for MessageCode {
    open spec fn obeys_from_spec() -> bool {
        true
    }

    open spec fn from_spec(id: u8) -> MessageCode {
        code_from_byte(id)
    }
}

impl From<MessageCode> for u8 {
    fn from(code: MessageCode) -> (id: u8) {
        match code {
            MessageCode::MessageChoke => 0,
            MessageCode::MessageUnchoke => 1,
            MessageCode::MessageInterested => 2,
            MessageCode::MessageNotInterested => 3,
            MessageCode::MessageHave => 4,
            MessageCode::MessageBitfield => 5,
            MessageCode::MessageRequest => 6,
            MessageCode::MessagePiece => 7,
            MessageCode::MessageCancel => 8,
            MessageCode::MessageKeepAlive => 254,
            MessageCode::MessageUnknown => 255,
        }
    }
}

impl FromSpecImpl<MessageCode> for u8 {
    open spec fn obeys_from_spec() -> bool {
        true
    }

    open spec fn from_spec(code: MessageCode) -> u8 {
        code_to_byte(code)
    }
}

/// Every code survives the trip to its byte and back.
pub proof fn lemma_code_round_trip(code: MessageCode)
    ensures
        code_from_byte(code_to_byte(code)) == code,
{
}

/// One unit of communication after the handshake.
pub struct Message {
    pub id: MessageCode,
    pub payload: Vec<u8>,
}

/// A message as a mathematical value.
pub struct MessageModel {
    pub id: MessageCode,
    pub payload: Seq<u8>,
}

impl View for Message {
    type V = MessageModel;

    open spec fn view(&self) -> MessageModel {
        MessageModel { id: self.id, payload: self.payload@ }
    }
}

impl Message {
    pub fn new(id: MessageCode, payload: Vec<u8>) -> (message: Message)
        ensures
            message.id == id,
            message.payload == payload,
    {
        Message { id, payload }
    }
}

/// The protocol string every peer must announce.
pub open spec fn protocol_string() -> Seq<char> {
    "BitTorrent protocol"@
}

/// The opening exchange of a connection. The info hash is kept in
/// hexadecimal, as the rest of the engine writes it.
pub struct Handshake {
    pub pstr: String,
    pub info_hash: String,
    pub peer_id: SizedBytes,
}

/// A handshake as a mathematical value.
pub struct HandshakeModel {
    pub pstr: Seq<char>,
    pub info_hash: Seq<char>,
    pub peer_id: Seq<u8>,
}

impl View for Handshake {
    type V = HandshakeModel;

    open spec fn view(&self) -> HandshakeModel {
        HandshakeModel { pstr: self.pstr@, info_hash: self.info_hash@, peer_id: self.peer_id@ }
    }
}

impl Handshake {
    /// The handshake this client sends for the torrent `info_hash`,
    /// under the identity `peer_id`.
    pub fn new(info_hash: String, peer_id: SizedBytes) -> (handshake: Handshake)
        ensures
            handshake.pstr@ == protocol_string(),
            handshake.info_hash == info_hash,
            handshake.peer_id == peer_id,
    {
        Handshake { pstr: "BitTorrent protocol".to_string(), info_hash, peer_id }
    }
}

} // verus!
