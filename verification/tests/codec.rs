use bit_torrent_rs::connection::client::Client;
use bit_torrent_rs::shared::Error;
use bit_torrent_rs::types::bitfield::BitField;
use bit_torrent_rs::types::message::{Handshake, Message, MessageCode};
use bit_torrent_rs::types::peer::Peer;

const ALL_CODES: [MessageCode; 11] = [
    MessageCode::MessageChoke,
    MessageCode::MessageUnchoke,
    MessageCode::MessageInterested,
    MessageCode::MessageNotInterested,
    MessageCode::MessageHave,
    MessageCode::MessageBitfield,
    MessageCode::MessageRequest,
    MessageCode::MessagePiece,
    MessageCode::MessageCancel,
    MessageCode::MessageKeepAlive,
    MessageCode::MessageUnknown,
];

const INFO_HASH: &str = "0123456789abcdef0123456789abcdef01234567";

fn peer_id() -> [u8; 20] {
    *b"-RS0001-NULLPTR-0000"
}

#[test]
fn code_bytes_are_the_protocol_numbers() {
    let bytes: Vec<u8> = ALL_CODES.iter().map(|code| u8::from(*code)).collect();
    assert_eq!(bytes, vec![0, 1, 2, 3, 4, 5, 6, 7, 8, 254, 255]);
}

#[test]
fn code_survives_its_byte() {
    for code in ALL_CODES {
        let byte: u8 = code.into();
        assert_eq!(MessageCode::from(byte), code);
    }
}

#[test]
fn undefined_code_bytes_read_as_unknown() {
    for byte in 9u8..254 {
        assert_eq!(MessageCode::from(byte), MessageCode::MessageUnknown);
    }
    assert_eq!(MessageCode::from(255), MessageCode::MessageUnknown);
}

#[test]
fn message_new_keeps_its_parts() {
    let message = Message::new(MessageCode::MessageCancel, vec![1, 2, 3]);
    assert_eq!(message.id, MessageCode::MessageCancel);
    assert_eq!(message.payload, vec![1, 2, 3]);
}

#[test]
fn request_frame_is_bit_exact() {
    let message = Message::format_request(1, 16384, 16384);
    assert_eq!(
        message.to_bytes(),
        Ok(vec![0, 0, 0, 13, 6, 0, 0, 0, 1, 0, 0, 0x40, 0, 0, 0, 0x40, 0])
    );
}

#[test]
fn have_frame_is_bit_exact() {
    let message = Message::format_have(0x0102_0304);
    assert_eq!(message.id, MessageCode::MessageHave);
    assert_eq!(message.to_bytes(), Ok(vec![0, 0, 0, 5, 4, 1, 2, 3, 4]));
}

#[test]
fn signal_without_payload_keeps_its_code_on_the_wire() {
    let interested = Message::new(MessageCode::MessageInterested, Vec::new());
    assert_eq!(interested.to_bytes(), Ok(vec![0, 0, 0, 1, 2]));
    let unchoke = Message::new(MessageCode::MessageUnchoke, Vec::new());
    assert_eq!(unchoke.to_bytes(), Ok(vec![0, 0, 0, 1, 1]));
}

#[test]
fn keep_alive_is_the_zero_length_frame() {
    let bare = Message::new(MessageCode::MessageKeepAlive, Vec::new());
    assert_eq!(bare.to_bytes(), Ok(vec![0, 0, 0, 0]));
    let loaded = Message::new(MessageCode::MessageKeepAlive, vec![9, 9]);
    assert_eq!(loaded.to_bytes(), Ok(vec![0, 0, 0, 0]));
    let read = Client::static_read_message(&[0, 0, 0, 0]).unwrap();
    assert_eq!(read.id, MessageCode::MessageKeepAlive);
    assert!(read.payload.is_empty());
}

#[test]
fn every_code_and_payload_round_trips() {
    let payloads: Vec<Vec<u8>> = vec![vec![], vec![0], vec![1, 2, 3, 4], (0..=255).collect()];
    for code in ALL_CODES {
        if code == MessageCode::MessageKeepAlive {
            continue;
        }
        for payload in &payloads {
            let frame = Message::new(code, payload.clone()).to_bytes().unwrap();
            assert_eq!(frame.len(), 5 + payload.len());
            let read = Client::static_read_message(&frame).unwrap();
            assert_eq!(read.id, code);
            assert_eq!(&read.payload, payload);
        }
    }
}

#[test]
fn message_body_splits_code_and_payload() {
    let message = Message::from_bytes(&[7, 1, 2, 3]).unwrap();
    assert_eq!(message.id, MessageCode::MessagePiece);
    assert_eq!(message.payload, vec![1, 2, 3]);
    let unknown = Message::from_bytes(&[42]).unwrap();
    assert_eq!(unknown.id, MessageCode::MessageUnknown);
    assert!(unknown.payload.is_empty());
}

#[test]
fn empty_message_body_is_refused() {
    assert_eq!(Message::from_bytes(&[]).err(), Some(Error::EmptyMessage));
}

#[test]
fn frame_must_match_its_prefix() {
    assert_eq!(Client::static_read_message(&[]).err(), Some(Error::MalformedFrame));
    assert_eq!(Client::static_read_message(&[0, 0, 0]).err(), Some(Error::MalformedFrame));
    assert_eq!(Client::static_read_message(&[0, 0, 0, 2, 4]).err(), Some(Error::MalformedFrame));
    assert_eq!(
        Client::static_read_message(&[0, 0, 0, 1, 4, 0]).err(),
        Some(Error::MalformedFrame)
    );
    assert_eq!(Client::static_read_message(&[0, 0, 0, 0, 1]).err(), Some(Error::MalformedFrame));
}

#[test]
fn message_length_reads_big_endian() {
    assert_eq!(Client::message_length(&[0, 0, 0, 0]), 0);
    assert_eq!(Client::message_length(&[0, 0, 1, 2]), 258);
    assert_eq!(Client::message_length(&[0xff, 0xff, 0xff, 0xff]), u32::MAX);
    assert_eq!(Client::message_length(&[0x12, 0x34, 0x56, 0x78]), 0x1234_5678);
}

#[test]
fn parse_have_reads_big_endian() {
    let message = Message::new(MessageCode::MessageHave, vec![0, 0, 1, 2]);
    assert_eq!(message.parse_have(), Ok(258));
    assert_eq!(Message::format_have(u32::MAX).parse_have(), Ok(u32::MAX));
    assert_eq!(Message::format_have(0).parse_have(), Ok(0));
}

#[test]
fn parse_have_refuses_other_messages() {
    let other = Message::new(MessageCode::MessagePiece, vec![0, 0, 0, 1]);
    assert_eq!(other.parse_have(), Err(Error::NotAHave));
    let short = Message::new(MessageCode::MessageHave, vec![0, 0, 1]);
    assert_eq!(short.parse_have(), Err(Error::InvalidHavePayload));
    let long = Message::new(MessageCode::MessageHave, vec![0, 0, 0, 1, 0]);
    assert_eq!(long.parse_have(), Err(Error::InvalidHavePayload));
}

#[test]
fn parse_piece_hands_out_the_block() {
    let message = Message::new(MessageCode::MessagePiece, vec![0, 0, 0, 3, 0, 0, 0x40, 0, 7, 8, 9]);
    assert_eq!(message.parse_piece(3), Ok(vec![7, 8, 9]));
    assert_eq!(message.parse_block(3), Ok((16384, vec![7, 8, 9])));
    let empty = Message::new(MessageCode::MessagePiece, vec![0, 0, 0, 3, 0, 0, 0, 0]);
    assert_eq!(empty.parse_piece(3), Ok(vec![]));
}

#[test]
fn parse_piece_refuses_what_is_not_the_piece() {
    let other = Message::new(MessageCode::MessageHave, vec![0; 12]);
    assert_eq!(other.parse_piece(0), Err(Error::NotAPiece));
    let short = Message::new(MessageCode::MessagePiece, vec![0; 7]);
    assert_eq!(short.parse_piece(0), Err(Error::PayloadTooShort));
    let foreign = Message::new(MessageCode::MessagePiece, vec![0, 0, 0, 1, 0, 0, 0, 0, 5]);
    assert_eq!(foreign.parse_piece(0), Err(Error::PieceIndexMismatch));
    assert_eq!(foreign.parse_block(2), Err(Error::PieceIndexMismatch));
    assert_eq!(foreign.parse_piece(1), Ok(vec![5]));
}

#[test]
fn parse_piece_refuses_a_begin_out_of_bounds() {
    let far = Message::new(
        MessageCode::MessagePiece,
        vec![0, 0, 0, 0, 0xFF, 0xFF, 0xFF, 0xFF, 1, 2, 3],
    );
    assert_eq!(far.parse_piece(0), Err(Error::BeginOutOfBounds));
    assert_eq!(far.parse_block(0), Err(Error::BeginOutOfBounds));
    assert_eq!(far.parse_piece(1), Err(Error::PieceIndexMismatch));
    let one_too_many = Message::new(
        MessageCode::MessagePiece,
        vec![0, 0, 0, 0, 0xFF, 0xFF, 0xFF, 0xFD, 1, 2, 3],
    );
    assert_eq!(one_too_many.parse_piece(0), Err(Error::BeginOutOfBounds));
    let last_fit = Message::new(
        MessageCode::MessagePiece,
        vec![0, 0, 0, 0, 0xFF, 0xFF, 0xFF, 0xFC, 1, 2, 3],
    );
    assert_eq!(last_fit.parse_piece(0), Ok(vec![1, 2, 3]));
    assert_eq!(last_fit.parse_block(0), Ok((0xFFFF_FFFC, vec![1, 2, 3])));
    let empty_at_end =
        Message::new(MessageCode::MessagePiece, vec![0, 0, 0, 0, 0xFF, 0xFF, 0xFF, 0xFF]);
    assert_eq!(empty_at_end.parse_piece(0), Ok(vec![]));
    let third_block = Message::new(
        MessageCode::MessagePiece,
        [vec![0, 0, 0, 0, 0, 0, 0x80, 0], vec![7; 16384]].concat(),
    );
    assert_eq!(third_block.parse_block(0), Ok((32768, vec![7; 16384])));
}

#[test]
fn handshake_new_names_the_protocol() {
    let handshake = Handshake::new(INFO_HASH.to_string(), peer_id());
    assert_eq!(handshake.pstr, "BitTorrent protocol");
    assert_eq!(handshake.info_hash, INFO_HASH);
    assert_eq!(handshake.peer_id, peer_id());
}

#[test]
fn handshake_bytes_are_bit_exact() {
    let bytes = Handshake::new(INFO_HASH.to_string(), peer_id()).to_bytes().unwrap();
    let mut expected = vec![19u8];
    expected.extend_from_slice(b"BitTorrent protocol");
    expected.extend_from_slice(&[0; 8]);
    expected.extend_from_slice(&[
        0x01, 0x23, 0x45, 0x67, 0x89, 0xab, 0xcd, 0xef, 0x01, 0x23, 0x45, 0x67, 0x89, 0xab, 0xcd,
        0xef, 0x01, 0x23, 0x45, 0x67,
    ]);
    expected.extend_from_slice(b"-RS0001-NULLPTR-0000");
    assert_eq!(bytes.len(), 68);
    assert_eq!(bytes, expected);
}

#[test]
fn handshake_round_trips() {
    let sent = Handshake::new(INFO_HASH.to_string(), peer_id());
    let bytes = sent.to_bytes().unwrap();
    let read = Client::read_handshake(&bytes).unwrap();
    assert_eq!(read.pstr, sent.pstr);
    assert_eq!(read.info_hash, sent.info_hash);
    assert_eq!(read.peer_id, sent.peer_id);
    let again = Handshake::from_bytes(bytes[0] as usize, &bytes[1..]).unwrap();
    assert_eq!(again.pstr, "BitTorrent protocol");
    assert_eq!(again.info_hash, INFO_HASH);
    assert_eq!(again.peer_id, peer_id());
}

#[test]
fn handshake_with_another_protocol_string_round_trips() {
    let sent = Handshake { pstr: "héllo".to_string(), info_hash: INFO_HASH.to_string(), peer_id: [7; 20] };
    let bytes = sent.to_bytes().unwrap();
    assert_eq!(bytes[0], 6);
    assert_eq!(bytes.len(), 1 + 6 + 48);
    let read = Client::read_handshake(&bytes).unwrap();
    assert_eq!(read.pstr, "héllo");
    assert_eq!(read.info_hash, INFO_HASH);
    assert_eq!(read.peer_id, [7; 20]);
    let empty = Handshake { pstr: String::new(), info_hash: INFO_HASH.to_string(), peer_id: [7; 20] };
    let bytes = empty.to_bytes().unwrap();
    assert_eq!(bytes.len(), 49);
    assert_eq!(Client::read_handshake(&bytes).unwrap().pstr, "");
}

#[test]
fn handshake_reads_upper_case_hash_as_the_same_bytes() {
    let upper = Handshake::new(INFO_HASH.to_uppercase(), peer_id()).to_bytes().unwrap();
    let lower = Handshake::new(INFO_HASH.to_string(), peer_id()).to_bytes().unwrap();
    assert_eq!(upper, lower);
    assert_eq!(Client::read_handshake(&upper).unwrap().info_hash, INFO_HASH);
}

#[test]
fn handshake_encoding_refuses_bad_fields() {
    let long = Handshake { pstr: "x".repeat(256), info_hash: INFO_HASH.to_string(), peer_id: peer_id() };
    assert_eq!(long.to_bytes(), Err(Error::PstrTooLong));
    let fits = Handshake { pstr: "x".repeat(255), info_hash: INFO_HASH.to_string(), peer_id: peer_id() };
    assert_eq!(fits.to_bytes().unwrap().len(), 1 + 255 + 48);
    let not_hex = Handshake::new("zz23456789abcdef0123456789abcdef01234567".to_string(), peer_id());
    assert_eq!(not_hex.to_bytes(), Err(Error::InvalidHex));
    let odd = Handshake::new("012".to_string(), peer_id());
    assert_eq!(odd.to_bytes(), Err(Error::InvalidHex));
    let short = Handshake::new("0123".to_string(), peer_id());
    assert_eq!(short.to_bytes(), Err(Error::InvalidInfoHashLength));
    let empty = Handshake::new(String::new(), peer_id());
    assert_eq!(empty.to_bytes(), Err(Error::InvalidInfoHashLength));
}

#[test]
fn handshake_decoding_refuses_bad_buffers() {
    assert_eq!(Client::read_handshake(&[]).err(), Some(Error::TruncatedHandshake));
    let bytes = Handshake::new(INFO_HASH.to_string(), peer_id()).to_bytes().unwrap();
    assert_eq!(
        Client::read_handshake(&bytes[..bytes.len() - 1]).err(),
        Some(Error::TruncatedHandshake)
    );
    assert_eq!(Handshake::from_bytes(19, &bytes[1..20]).err(), Some(Error::TruncatedHandshake));
    assert_eq!(
        Handshake::from_bytes(usize::MAX, &bytes[1..]).err(),
        Some(Error::TruncatedHandshake)
    );
    let mut broken = bytes.clone();
    broken[1] = 0xff;
    assert_eq!(Client::read_handshake(&broken).err(), Some(Error::InvalidUtf8));
}

#[test]
fn handshake_length_counts_what_follows_the_first_byte() {
    assert_eq!(Client::handshake_length(0), 48);
    assert_eq!(Client::handshake_length(19), 67);
    assert_eq!(Client::handshake_length(255), 303);
}

#[test]
fn complete_handshake_checks_protocol_and_torrent() {
    let info_hash = INFO_HASH.to_string();
    let good = Handshake::new(info_hash.clone(), [1; 20]);
    let accepted = Client::complete_handshake(&info_hash, good).unwrap();
    assert_eq!(accepted.info_hash, INFO_HASH);
    assert_eq!(accepted.peer_id, [1; 20]);
    let other_protocol = Handshake { pstr: "BitTorrent".to_string(), info_hash: info_hash.clone(), peer_id: [1; 20] };
    assert_eq!(
        Client::complete_handshake(&info_hash, other_protocol).err(),
        Some(Error::InvalidPstr)
    );
    let other_torrent = Handshake::new("ffffffffffffffffffffffffffffffffffffffff".to_string(), [1; 20]);
    assert_eq!(
        Client::complete_handshake(&info_hash, other_torrent).err(),
        Some(Error::InvalidInfoHash)
    );
    let both = Handshake { pstr: String::new(), info_hash: String::new(), peer_id: [1; 20] };
    assert_eq!(Client::complete_handshake(&info_hash, both).err(), Some(Error::InvalidPstr));
}

#[test]
fn first_message_must_be_a_bitfield() {
    let bitfield =
        Client::receive_bitfield(Message::new(MessageCode::MessageBitfield, vec![0xa0, 1])).unwrap();
    assert_eq!(bitfield.bits, vec![0xa0, 1]);
    for code in ALL_CODES {
        if code != MessageCode::MessageBitfield {
            let refused = Client::receive_bitfield(Message::new(code, vec![0xff]));
            assert_eq!(refused.err(), Some(Error::ExpectedBitfield));
        }
    }
}

#[test]
fn fresh_connection_is_choked() {
    let peer = Peer::new([127, 0, 0, 1], 6881);
    let client = Client::connect(peer, INFO_HASH.to_string(), BitField::new(vec![0x80]));
    assert!(client.choked);
    assert_eq!(client.bitfield.bits, vec![0x80]);
    assert_eq!(client.peer, peer);
    assert_eq!(client.info_hash, INFO_HASH);
}

#[test]
fn bitfield_bits_count_from_the_most_significant() {
    let bitfield = BitField::new(vec![0b1000_0001, 0b0100_0000]);
    let present: Vec<u32> = (0..16).filter(|i| bitfield.has_piece(*i)).collect();
    assert_eq!(present, vec![0, 7, 9]);
}

#[test]
fn bitfield_set_then_has() {
    for index in 0..24u32 {
        let mut bitfield = BitField::new(vec![0; 3]);
        bitfield.set_piece(index);
        for other in 0..32u32 {
            assert_eq!(bitfield.has_piece(other), other == index);
        }
    }
    let mut bitfield = BitField::new(vec![0; 2]);
    bitfield.set_piece(3);
    bitfield.set_piece(12);
    bitfield.set_piece(3);
    assert_eq!(bitfield.bits, vec![0b0001_0000, 0b0000_1000]);
}

#[test]
fn bitfield_never_set_bits_are_absent() {
    let bitfield = BitField::new(vec![0; 4]);
    for index in 0..64u32 {
        assert!(!bitfield.has_piece(index));
    }
}

#[test]
fn bitfield_out_of_range_is_absent_and_untouched() {
    let mut bitfield = BitField::new(vec![0xff]);
    assert!(bitfield.has_piece(7));
    assert!(!bitfield.has_piece(8));
    assert!(!bitfield.has_piece(u32::MAX));
    bitfield.set_piece(8);
    bitfield.set_piece(u32::MAX);
    assert_eq!(bitfield.bits, vec![0xff]);
    let mut empty = BitField::new(Vec::new());
    empty.set_piece(0);
    assert!(!empty.has_piece(0));
    assert!(empty.bits.is_empty());
}

#[test]
fn compact_peers_are_read_in_order() {
    let peers = Peer::from_bytes(&[192, 168, 1, 2, 0x1a, 0xe1, 10, 0, 0, 1, 0, 80]).unwrap();
    assert_eq!(peers, vec![Peer::new([192, 168, 1, 2], 6881), Peer::new([10, 0, 0, 1], 80)]);
    assert_eq!(Peer::from_bytes(&[]), Ok(vec![]));
    assert_eq!(
        Peer::from_bytes(&[255, 255, 255, 255, 255, 255]),
        Ok(vec![Peer { ip: [255; 4], port: 65535 }])
    );
}

#[test]
fn compact_peers_must_be_whole() {
    for length in [1usize, 5, 7, 11, 13] {
        assert_eq!(Peer::from_bytes(&vec![0; length]), Err(Error::InvalidPeerLength));
    }
}
