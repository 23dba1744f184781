//! What is known of one connected peer, and the checks that a
//! connection makes on what it reads.
//!
//! The transport itself belongs to the caller. It hands over the bytes it
//! read; these functions say what they mean and whether the connection
//! may go on.

use crate::serializer::bytes::{
    handshake_decoding,
    handshake_encoding,
    lemma_handshake_round_trip,
    message_of_frame,
    valid_handshake,
};
use crate::shared::{Error, SyncResult};
use crate::types::bitfield::BitField;
use crate::types::message::{protocol_string, Handshake, HandshakeModel, Message, MessageCode};
use crate::types::peer::Peer;
use crate::utils::endian::{be_value, read_be};
use vstd::prelude::*;
use vstd::slice::slice_subrange;
use vstd::utf8::encode_utf8;

verus! {

/// The state of one connection: whether the peer chokes this client,
/// which pieces the peer holds, whom the connection reaches and for
/// which torrent.
pub struct Client {
    pub choked: bool,
    pub bitfield: BitField,
    pub peer: Peer,
    pub info_hash: String,
}

/// What a download reads and changes of a connection: the choke flag and
/// the peer's bitfield.
pub struct LinkModel {
    pub choked: bool,
    pub bits: Seq<u8>,
}

/// The handshake that a stream starts with: one byte that gives the
/// length of the protocol string, then the handshake itself.
pub open spec fn handshake_of_stream(bytes: Seq<u8>) -> Result<HandshakeModel, Error> {
    if bytes.len() == 0 {
        Err(Error::TruncatedHandshake)
    } else {
        handshake_decoding(bytes[0] as int, bytes.skip(1))
    }
}

/// Whether the peer's handshake may be accepted for the torrent
/// `info_hash`: it names the expected protocol and the same torrent.
pub open spec fn handshake_verdict(info_hash: Seq<char>, handshake: HandshakeModel) -> Result<
    (),
    Error,
> {
    if handshake.pstr != protocol_string() {
        Err(Error::InvalidPstr)
    } else if handshake.info_hash != info_hash {
        Err(Error::InvalidInfoHash)
    } else {
        Ok(())
    }
}

impl Client {
    /// The part of the connection that a download reads and changes.
    pub open spec fn link(&self) -> LinkModel {
        LinkModel { choked: self.choked, bits: self.bitfield@ }
    }

    /// The state of a connection that has just been established: the
    /// peer's bitfield is the one it announced, and the peer is taken to
    /// choke this client until it says otherwise.
    pub fn connect(peer: Peer, info_hash: String, bitfield: BitField) -> (client: Client)
        ensures
            client.choked,
            client.bitfield == bitfield,
            client.peer == peer,
            client.info_hash == info_hash,
    {
        Client { choked: true, bitfield, peer, info_hash }
    }

    /// How many bytes of a handshake follow the byte that gives the
    /// length of the protocol string.
    pub fn handshake_length(pstr_len: u8) -> (length: usize)
        ensures
            length == pstr_len + 48,
    {
        pstr_len as usize + 20 + 20 + 8
    }

    /// Reads the handshake that a peer sent, length byte included.
    pub fn read_handshake(buffer: &[u8]) -> (handshake: SyncResult<Handshake>)
        ensures
            match handshake_of_stream(buffer@) {
                Ok(decoding) => handshake matches Ok(h) && h@ == decoding,
                Err(error) => handshake matches Err(e) && e == error,
            },
    {
        if buffer.len() == 0 {
            return Err(Error::TruncatedHandshake);
        }
        let pstr_len: usize = buffer[0] as usize;
        let rest = slice_subrange(buffer, 1, buffer.len());
        assert(rest@ =~= buffer@.skip(1));
        Handshake::from_bytes(pstr_len, rest)
    }

    /// Judges the handshake that the peer answered with. It is handed
    /// back when it names the expected protocol and the torrent
    /// `info_hash`; otherwise the connection must be given up.
    pub fn complete_handshake(info_hash: &String, handshake: Handshake) -> (accepted: SyncResult<
        Handshake,
    >)
        ensures
            match handshake_verdict(info_hash@, handshake@) {
                Ok(_) => accepted matches Ok(h) && h == handshake,
                Err(error) => accepted matches Err(e) && e == error,
            },
    {
        let expected = "BitTorrent protocol".to_string();
        if handshake.pstr != expected {
            return Err(Error::InvalidPstr);
        }
        if handshake.info_hash != *info_hash {
            return Err(Error::InvalidInfoHash);
        }
        Ok(handshake)
    }

    /// Takes the peer's bitfield from the first message after the
    /// handshake. Any other message there ends the connection.
    pub fn receive_bitfield(message: Message) -> (bitfield: SyncResult<BitField>)
        ensures
            message.id == MessageCode::MessageBitfield ==> (bitfield matches Ok(b) && b.bits
                == message.payload),
            message.id != MessageCode::MessageBitfield ==> (bitfield matches Err(e) && e
                == Error::ExpectedBitfield),
    {
        if message.id != MessageCode::MessageBitfield {
            return Err(Error::ExpectedBitfield);
        }
        Ok(BitField::new(message.payload))
    }

    /// How many bytes of a frame follow its four-byte length prefix.
    pub fn message_length(prefix: &[u8; 4]) -> (length: u32)
        ensures
            length == be_value(prefix@),
    {
        let bytes = prefix.as_slice();
        assert(bytes@.subrange(0, 4) =~= prefix@);
        read_be(bytes, 0)
    }

    /// Reads one whole frame, length prefix included. The frame of
    /// length zero is a keep-alive without payload. Fails with
    /// `MalformedFrame` when the frame is not as long as its prefix
    /// says.
    pub fn static_read_message(frame: &[u8]) -> (message: SyncResult<Message>)
        ensures
            match message_of_frame(frame@) {
                Some(expected) => message matches Ok(m) && m@ == expected,
                None => message matches Err(e) && e == Error::MalformedFrame,
            },
    {
        if frame.len() < 4 {
            return Err(Error::MalformedFrame);
        }
        let length = read_be(frame, 0);
        if (frame.len() - 4) as u64 != length as u64 {
            return Err(Error::MalformedFrame);
        }
        if length == 0 {
            return Ok(Message::new(MessageCode::MessageKeepAlive, Vec::new()));
        }
        let body = slice_subrange(frame, 4, frame.len());
        assert(body@ =~= frame@.skip(4));
        Message::from_bytes(body)
    }
}

/// A valid handshake that was encoded is read back from the stream as
/// the same protocol string, info hash and peer id.
pub proof fn lemma_handshake_stream_round_trip(handshake: HandshakeModel)
    requires
        valid_handshake(handshake),
    ensures
        handshake_encoding(handshake) is Ok,
        handshake_of_stream(handshake_encoding(handshake).unwrap()) == Ok::<HandshakeModel, Error>(
            handshake,
        ),
{
    lemma_handshake_round_trip(handshake);
}

/// A handshake that this client would send for a torrent is accepted
/// for that torrent when it comes back.
pub proof fn lemma_own_handshake_accepted(info_hash: Seq<char>, peer_id: Seq<u8>)
    ensures
        handshake_verdict(
            info_hash,
            HandshakeModel { pstr: protocol_string(), info_hash, peer_id },
        ) is Ok,
{
}

} // verus!
