//! Constants, aliases and the error type shared by every module.

use vstd::prelude::*;

verus! {

/// A SHA-1 digest or a peer id: twenty raw bytes.
pub type SizedBytes = [u8; 20];

/// Every fallible operation of the crate fails with an [`Error`].
pub type SyncResult<T> = Result<T, Error>;

/// Largest block asked for in one `request` message.
pub const MAX_BLOCK_SIZE: u32 = 16384;

/// Most requests that may be outstanding for one piece on one connection.
pub const MAX_BACKLOG: u32 = 5;

/// Bytes taken by one peer in a tracker's compact peer list.
pub const PEER_SIZE: u32 = 6;

/// Length of a piece hash, of an info hash and of a peer id.
pub const HASH_SIZE: usize = 20;

/// Seconds granted to one attempt at downloading a piece.
pub const PIECE_TIMEOUT_SECS: u64 = 30;

/// What can go wrong while talking to a peer or preparing a download.
#[derive(Debug, Clone, Copy, PartialEq, Eq, Structural)]
pub enum Error {
    /// The transport failed or the peer went away.
    Connection,
    /// A frame is shorter or longer than its length prefix announces.
    MalformedFrame,
    /// A message body holds no code byte.
    EmptyMessage,
    /// The payload does not fit under a 32-bit length prefix.
    PayloadTooLarge,
    /// The protocol string does not fit under a one-byte length.
    PstrTooLong,
    /// The handshake buffer ends before its last field.
    TruncatedHandshake,
    /// The protocol string is not valid UTF-8.
    InvalidUtf8,
    /// An info hash is not written in hexadecimal.
    InvalidHex,
    /// An info hash does not stand for twenty bytes.
    InvalidInfoHashLength,
    /// The peer speaks another protocol.
    InvalidPstr,
    /// The peer serves another torrent.
    InvalidInfoHash,
    /// The first message after the handshake is not a bitfield.
    ExpectedBitfield,
    /// The message is not a `piece`.
    NotAPiece,
    /// The message is not a `have`.
    NotAHave,
    /// A `piece` payload is shorter than its two header fields.
    PayloadTooShort,
    /// A `have` payload is not exactly four bytes.
    InvalidHavePayload,
    /// A block belongs to another piece than the one in flight.
    PieceIndexMismatch,
    /// A block starts beyond the bytes accumulated so far, or would end
    /// beyond the last byte that a piece can hold.
    BeginOutOfBounds,
    /// A block arrived although none was outstanding.
    UnexpectedBlock,
    /// A block would make the piece longer than announced.
    BlockOverrun,
    /// The attempt ended before the whole piece had arrived.
    IncompletePiece,
    /// The downloaded bytes do not hash to the expected digest.
    HashMismatch,
    /// The piece attempt exceeded its time budget.
    Timeout,
    /// A compact peer list is not a multiple of six bytes long.
    InvalidPeerLength,
    /// The tracker's answer holds no peer list.
    MissingPeers,
    /// A file entry names no length.
    MissingLength,
    /// A file entry names no path.
    MissingPath,
    /// The concatenated piece hashes are not a multiple of twenty bytes long.
    InvalidPieces,
    /// The engine was asked to start a second time.
    AlreadyStarted,
    /// More pieces than a 32-bit index can number.
    TooManyPieces,
    /// A piece would start beyond the end of the file.
    InconsistentPieces,
    /// A result names a piece that the torrent does not have.
    UnknownPiece,
    /// A result names a piece that was already written.
    DuplicatePiece,
}

} // verus!
