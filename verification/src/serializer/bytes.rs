//! Messages, handshakes and peer lists as bytes of the wire.

use crate::shared::{Error, SyncResult, PEER_SIZE};
use crate::types::message::{
    code_from_byte,
    code_to_byte,
    lemma_code_round_trip,
    Handshake,
    HandshakeModel,
    Message,
    MessageCode,
    MessageModel,
};
use crate::types::peer::Peer;
use crate::utils::data::manipulator::sized_bytes_at;
use crate::utils::endian::{be_bytes, be_value, lemma_be_round_trip, push_be};
use crate::utils::hexadecimal::{
    ascii_codes,
    hex_decode,
    hex_decoding,
    hex_encode,
    hex_encoding,
    is_hex,
    is_lower_hex,
    lemma_hex_encoding_of_decoding,
};
use crate::utils::text::str_from_utf8;
use vstd::prelude::*;
use vstd::slice::{slice_subrange, slice_to_vec};
use vstd::string::StringSliceAdditionalSpecFns;
use vstd::utf8::{
    decode_utf8,
    encode_utf8,
    encode_utf8_decode_utf8,
    encode_utf8_valid_utf8,
    is_ascii_chars,
    is_ascii_chars_encode_utf8,
    valid_utf8,
};

verus! {

/// The frame of a keep-alive: a length prefix of zero and nothing else.
pub open spec fn keep_alive_frame() -> Seq<u8> {
    seq![0u8, 0u8, 0u8, 0u8]
}

/// Whether a message can be framed: a keep-alive always can, any other
/// message when its code and payload together fit under the prefix.
pub open spec fn message_fits(message: MessageModel) -> bool {
    message.id == MessageCode::MessageKeepAlive || message.payload.len() < u32::MAX
}

/// The frame of a message: the length of code and payload in four bytes,
/// most significant first, then the code, then the payload. A keep-alive
/// is the frame of length zero, whatever payload it was given.
pub open spec fn message_frame(message: MessageModel) -> Seq<u8> {
    if message.id == MessageCode::MessageKeepAlive {
        keep_alive_frame()
    } else {
        be_bytes((message.payload.len() + 1) as u32) + seq![code_to_byte(message.id)]
            + message.payload
    }
}

/// The message that the body of a frame holds: its first byte is the
/// code, the rest the payload.
pub open spec fn message_of_body(body: Seq<u8>) -> MessageModel
    recommends
        body.len() > 0,
{
    MessageModel { id: code_from_byte(body[0]), payload: body.skip(1) }
}

/// The message that a whole frame holds, if the frame is as long as its
/// prefix says. The frame of length zero holds a keep-alive with no
/// payload.
pub open spec fn message_of_frame(frame: Seq<u8>) -> Option<MessageModel> {
    if frame.len() < 4 || frame.len() != 4 + be_value(frame.subrange(0, 4)) {
        None
    } else if frame.len() == 4 {
        Some(MessageModel { id: MessageCode::MessageKeepAlive, payload: Seq::empty() })
    } else {
        Some(message_of_body(frame.skip(4)))
    }
}

impl Message {
    /// Frames the message. Fails with `PayloadTooLarge` when code and
    /// payload do not fit under a 32-bit length.
    pub fn to_bytes(&self) -> (bytes: SyncResult<Vec<u8>>)
        ensures
            message_fits(self@) ==> (bytes matches Ok(frame) && frame@ == message_frame(self@)),
            !message_fits(self@) ==> bytes == Err::<Vec<u8>, Error>(Error::PayloadTooLarge),
    {
        if self.id == MessageCode::MessageKeepAlive {
            let frame: Vec<u8> = vec![0u8, 0u8, 0u8, 0u8];
            assert(frame@ =~= keep_alive_frame());
            return Ok(frame);
        }
        if self.payload.len() >= u32::MAX as usize {
            return Err(Error::PayloadTooLarge);
        }
        let mut bytes: Vec<u8> = Vec::new();
        push_be(&mut bytes, self.payload.len() as u32 + 1);
        let byte_id: u8 = self.id.into();
        bytes.push(byte_id);
        bytes.extend_from_slice(self.payload.as_slice());
        assert(bytes@ =~= message_frame(self@));
        Ok(bytes)
    }

    /// Reads the body of a frame. Fails with `EmptyMessage` when there
    /// is no code byte; a code that the protocol does not define is no
    /// error.
    pub fn from_bytes(buf: &[u8]) -> (message: SyncResult<Message>)
        ensures
            buf@.len() > 0 ==> (message matches Ok(m) && m@ == message_of_body(buf@)),
            buf@.len() == 0 ==> (message matches Err(e) && e == Error::EmptyMessage),
    {
        if buf.len() == 0 {
            return Err(Error::EmptyMessage);
        }
        let id: u8 = buf[0];
        let payload = slice_to_vec(slice_subrange(buf, 1, buf.len()));
        assert(payload@ =~= buf@.skip(1));
        Ok(Message::new(MessageCode::from(id), payload))
    }
}

/// Every message other than a keep-alive that fits in a frame is read
/// back from its frame with the same code and the same payload.
pub proof fn lemma_message_round_trip(message: MessageModel)
    requires
        message.id != MessageCode::MessageKeepAlive,
        message_fits(message),
    ensures
        message_of_frame(message_frame(message)) == Some(message),
{
    let length = (message.payload.len() + 1) as u32;
    let frame = message_frame(message);
    lemma_be_round_trip(length);
    lemma_code_round_trip(message.id);
    assert(frame.subrange(0, 4) =~= be_bytes(length));
    assert(frame.skip(4) =~= seq![code_to_byte(message.id)] + message.payload);
    assert(frame.skip(4).skip(1) =~= message.payload);
}

/// A keep-alive is framed as the frame of length zero, and that frame
/// is read back as a keep-alive without payload.
pub proof fn lemma_keep_alive_round_trip(message: MessageModel)
    requires
        message.id == MessageCode::MessageKeepAlive,
    ensures
        message_frame(message) == keep_alive_frame(),
        message_of_frame(keep_alive_frame()) == Some(
            MessageModel { id: MessageCode::MessageKeepAlive, payload: Seq::empty() },
        ),
{
    assert(keep_alive_frame().subrange(0, 4) =~= keep_alive_frame());
}

/// Eight zero bytes: the reserved field of a handshake.
pub open spec fn reserved_bytes() -> Seq<u8> {
    Seq::new(8, |i: int| 0u8)
}

/// The bytes of a handshake: the length of the protocol string in one
/// byte, the protocol string, eight reserved zero bytes, the twenty
/// bytes of the info hash and the twenty bytes of the peer id. Fails
/// when the protocol string takes more than 255 bytes, when the info
/// hash is not hexadecimal, or when it does not stand for twenty bytes.
pub open spec fn handshake_encoding(handshake: HandshakeModel) -> Result<Seq<u8>, Error> {
    let pstr = encode_utf8(handshake.pstr);
    let info_hash = encode_utf8(handshake.info_hash);
    if pstr.len() > 255 {
        Err(Error::PstrTooLong)
    } else if !is_hex(info_hash) {
        Err(Error::InvalidHex)
    } else if hex_decoding(info_hash).len() != 20 {
        Err(Error::InvalidInfoHashLength)
    } else {
        Ok(seq![pstr.len() as u8] + pstr + reserved_bytes() + hex_decoding(info_hash)
            + handshake.peer_id)
    }
}

/// The handshake that follows its length byte in `buf`, for a protocol
/// string of `pstr_len` bytes. Fails when `buf` holds fewer than
/// `pstr_len + 48` bytes or when the protocol string is not UTF-8. The
/// info hash is given in lower-case hexadecimal.
pub open spec fn handshake_decoding(pstr_len: int, buf: Seq<u8>) -> Result<HandshakeModel, Error> {
    if buf.len() < pstr_len + 48 {
        Err(Error::TruncatedHandshake)
    } else if !valid_utf8(buf.subrange(0, pstr_len)) {
        Err(Error::InvalidUtf8)
    } else {
        Ok(
            HandshakeModel {
                pstr: decode_utf8(buf.subrange(0, pstr_len)),
                info_hash: hex_encoding(buf.subrange(pstr_len + 8, pstr_len + 28)),
                peer_id: buf.subrange(pstr_len + 28, pstr_len + 48),
            },
        )
    }
}

impl Handshake {
    /// The bytes to send for this handshake.
    pub fn to_bytes(&self) -> (bytes: SyncResult<Vec<u8>>)
        ensures
            match handshake_encoding(self@) {
                Ok(encoding) => bytes matches Ok(buf) && buf@ == encoding,
                Err(error) => bytes == Err::<Vec<u8>, Error>(error),
            },
    {
        let pstr = self.pstr.as_str().as_bytes();
        if pstr.len() > 255 {
            return Err(Error::PstrTooLong);
        }
        let info_hash = match hex_decode(self.info_hash.as_str().as_bytes()) {
            Ok(decoded) => decoded,
            Err(_) => {
                return Err(Error::InvalidHex);
            },
        };
        if info_hash.len() != 20 {
            return Err(Error::InvalidInfoHashLength);
        }
        let mut buf: Vec<u8> = Vec::new();
        buf.push(pstr.len() as u8);
        buf.extend_from_slice(pstr);
        let mut reserved: usize = 0;
        while reserved < 8
            invariant
                reserved <= 8,
                buf@ == seq![pstr@.len() as u8] + pstr@ + Seq::new(reserved as nat, |i: int| 0u8),
            decreases 8 - reserved,
        {
            buf.push(0u8);
            reserved = reserved + 1;
            assert(buf@ =~= seq![pstr@.len() as u8] + pstr@ + Seq::new(
                reserved as nat,
                |i: int| 0u8,
            ));
        }
        buf.extend_from_slice(info_hash.as_slice());
        buf.extend_from_slice(self.peer_id.as_slice());
        Ok(buf)
    }

    /// Reads the handshake that follows its length byte.
    pub fn from_bytes(pstr_len: usize, buf: &[u8]) -> (handshake: SyncResult<Handshake>)
        ensures
            match handshake_decoding(pstr_len as int, buf@) {
                Ok(decoding) => handshake matches Ok(h) && h@ == decoding,
                Err(error) => handshake matches Err(e) && e == error,
            },
    {
        if buf.len() < 48 || buf.len() - 48 < pstr_len {
            return Err(Error::TruncatedHandshake);
        }
        let pstr = match str_from_utf8(slice_subrange(buf, 0, pstr_len)) {
            Ok(text) => text.to_string(),
            Err(_) => {
                return Err(Error::InvalidUtf8);
            },
        };
        let info_hash = hex_encode(slice_subrange(buf, pstr_len + 8, pstr_len + 28));
        let peer_id = sized_bytes_at(buf, pstr_len + 28);
        Ok(Handshake { pstr, info_hash, peer_id })
    }
}

/// Whether a handshake can be sent and read back as it is: its protocol
/// string fits under a one-byte length, its info hash is forty
/// lower-case hexadecimal digits and its peer id twenty bytes.
pub open spec fn valid_handshake(handshake: HandshakeModel) -> bool {
    &&& encode_utf8(handshake.pstr).len() <= 255
    &&& handshake.info_hash.len() == 40
    &&& is_lower_hex(handshake.info_hash)
    &&& handshake.peer_id.len() == 20
}

/// Lower-case hexadecimal text is encoded in UTF-8 as its ASCII codes.
pub proof fn lemma_lower_hex_bytes(text: Seq<char>)
    requires
        is_lower_hex(text),
    ensures
        encode_utf8(text) == ascii_codes(text),
{
    assert(is_ascii_chars(text)) by {
        assert forall|i: int| 0 <= i < text.len() implies '\0' <= #[trigger] text[i]
            <= '\u{7f}' by {}
    }
    is_ascii_chars_encode_utf8(text);
    assert(encode_utf8(text) =~= ascii_codes(text));
}

/// A valid handshake is encoded, and what follows the length byte of
/// its encoding is read back as the same protocol string, info hash and
/// peer id.
pub proof fn lemma_handshake_round_trip(handshake: HandshakeModel)
    requires
        valid_handshake(handshake),
    ensures
        handshake_encoding(handshake) is Ok,
        handshake_encoding(handshake).unwrap()[0] == encode_utf8(handshake.pstr).len(),
        handshake_decoding(
            encode_utf8(handshake.pstr).len() as int,
            handshake_encoding(handshake).unwrap().skip(1),
        ) == Ok::<HandshakeModel, Error>(handshake),
{
    let pstr = encode_utf8(handshake.pstr);
    let info_hash = encode_utf8(handshake.info_hash);
    lemma_lower_hex_bytes(handshake.info_hash);
    lemma_hex_encoding_of_decoding(handshake.info_hash);
    let digest = hex_decoding(info_hash);
    assert(digest.len() == 20);
    let encoding = handshake_encoding(handshake).unwrap();
    let rest = encoding.skip(1);
    let n = pstr.len() as int;
    assert(rest =~= pstr + reserved_bytes() + digest + handshake.peer_id);
    assert(rest.subrange(0, n) =~= pstr);
    assert(rest.subrange(n + 8, n + 28) =~= digest);
    assert(rest.subrange(n + 28, n + 48) =~= handshake.peer_id);
    encode_utf8_valid_utf8(handshake.pstr);
    encode_utf8_decode_utf8(handshake.pstr);
}

/// The peer that entry `i` of a compact peer list stands for: four
/// bytes of address and two bytes of port, most significant first.
pub open spec fn peer_entry_matches(bytes: Seq<u8>, i: int, peer: Peer) -> bool {
    &&& peer.ip@ == bytes.subrange(i * 6, i * 6 + 4)
    &&& peer.port == bytes[i * 6 + 4] * 256 + bytes[i * 6 + 5]
}

impl Peer {
    /// Reads a tracker's compact peer list. Fails with
    /// `InvalidPeerLength` when the list is not a whole number of
    /// six-byte entries.
    pub fn from_bytes(bytes: &[u8]) -> (peers: SyncResult<Vec<Peer>>)
        ensures
            bytes@.len() % 6 == 0 ==> (peers matches Ok(list) && list@.len() == bytes@.len() / 6
                && forall|i: int|
                0 <= i < list@.len() ==> peer_entry_matches(bytes@, i, #[trigger] list@[i])),
            bytes@.len() % 6 != 0 ==> (peers matches Err(e) && e == Error::InvalidPeerLength),
    {
        let peer_length: usize = bytes.len();
        if peer_length % (PEER_SIZE as usize) != 0 {
            return Err(Error::InvalidPeerLength);
        }
        let mut peers: Vec<Peer> = Vec::new();
        let mut index: usize = 0;
        while index < peer_length
            invariant
                peer_length == bytes@.len(),
                peer_length % 6 == 0,
                index <= peer_length,
                index % 6 == 0,
                peers@.len() == index / 6,
                forall|i: int|
                    0 <= i < peers@.len() ==> peer_entry_matches(bytes@, i, #[trigger] peers@[i]),
            decreases peer_length - index,
        {
            let ip: [u8; 4] = [bytes[index], bytes[index + 1], bytes[index + 2], bytes[index + 3]];
            let port: u16 = bytes[index + 4] as u16 * 256 + bytes[index + 5] as u16;
            assert(ip@ =~= bytes@.subrange(index as int, index + 4));
            peers.push(Peer { ip, port });
            index = index + PEER_SIZE as usize;
        }
        Ok(peers)
    }
}

} // verus!
