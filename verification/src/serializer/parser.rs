//! Reading the payloads that carry numbers, and applying one incoming
//! message to the state of a download.

use crate::connection::client::{Client, LinkModel};
use crate::serializer::formatter::have_message;
use crate::shared::{Error, SyncResult};
use crate::types::bitfield::bits_with_piece;
use crate::types::message::{Message, MessageCode, MessageModel};
use crate::types::piece::{PieceProgress, ProgressModel};
use crate::utils::endian::{be_value, lemma_be_round_trip, read_be};
use vstd::prelude::*;
use vstd::slice::{slice_subrange, slice_to_vec};

verus! {

/// The index that a `have` message announces. Fails when the message is
/// no `have` or when its payload is not exactly four bytes.
pub open spec fn have_index(message: MessageModel) -> Result<u32, Error> {
    if message.id != MessageCode::MessageHave {
        Err(Error::NotAHave)
    } else if message.payload.len() != 4 {
        Err(Error::InvalidHavePayload)
    } else {
        Ok(be_value(message.payload))
    }
}

/// The begin offset and the bytes of the block that a `piece` message
/// carries for piece `index`. Fails when the message is no `piece`, when
/// its payload is shorter than the two header fields, when it names
/// another piece, or when its block would end beyond the last byte that
/// a piece can hold: the length of a piece is a 32-bit number.
pub open spec fn piece_block(message: MessageModel, index: u32) -> Result<(u32, Seq<u8>), Error> {
    if message.id != MessageCode::MessagePiece {
        Err(Error::NotAPiece)
    } else if message.payload.len() < 8 {
        Err(Error::PayloadTooShort)
    } else if be_value(message.payload.subrange(0, 4)) != index {
        Err(Error::PieceIndexMismatch)
    } else if be_value(message.payload.subrange(4, 8)) + (message.payload.len() - 8) > u32::MAX {
        Err(Error::BeginOutOfBounds)
    } else {
        Ok((be_value(message.payload.subrange(4, 8)), message.payload.skip(8)))
    }
}

impl Message {
    /// Reads a `piece` message for the piece `index`: where its block
    /// begins within the piece, and the bytes of the block. A block that
    /// no piece could hold, because it would end beyond `u32::MAX`, is
    /// refused with `BeginOutOfBounds`.
    pub fn parse_block(&self, index: u32) -> (block: SyncResult<(u32, Vec<u8>)>)
        ensures
            match piece_block(self@, index) {
                Ok(expected) => block matches Ok(found) && found.0 == expected.0 && found.1@
                    == expected.1,
                Err(error) => block matches Err(e) && e == error,
            },
    {
        let payload = self.payload.as_slice();
        if self.id != MessageCode::MessagePiece {
            return Err(Error::NotAPiece);
        }
        if payload.len() < 8 {
            return Err(Error::PayloadTooShort);
        }
        let parsed_index = read_be(payload, 0);
        if parsed_index != index {
            return Err(Error::PieceIndexMismatch);
        }
        let begin = read_be(payload, 4);
        if (payload.len() - 8) as u64 > (u32::MAX - begin) as u64 {
            return Err(Error::BeginOutOfBounds);
        }
        let data = slice_to_vec(slice_subrange(payload, 8, payload.len()));
        assert(data@ =~= self@.payload.skip(8));
        Ok((begin, data))
    }

    /// The bytes of the block that a `piece` message carries for the
    /// piece `index`, under the checks of [`Message::parse_block`].
    pub fn parse_piece(&self, index: u32) -> (data: SyncResult<Vec<u8>>)
        ensures
            match piece_block(self@, index) {
                Ok(expected) => data matches Ok(bytes) && bytes@ == expected.1,
                Err(error) => data matches Err(e) && e == error,
            },
    {
        match self.parse_block(index) {
            Ok(block) => Ok(block.1),
            Err(error) => Err(error),
        }
    }

    /// The piece that a `have` message announces.
    pub fn parse_have(&self) -> (index: SyncResult<u32>)
        ensures
            index == have_index(self@),
    {
        let payload = self.payload.as_slice();
        if self.id != MessageCode::MessageHave {
            return Err(Error::NotAHave);
        }
        if payload.len() != 4 {
            return Err(Error::InvalidHavePayload);
        }
        let index = read_be(payload, 0);
        assert(payload@.subrange(0, 4) =~= payload@);
        Ok(index)
    }
}

/// A `have` that was built for a piece is read as that piece.
pub proof fn lemma_have_round_trip(index: u32)
    ensures
        have_index(have_message(index)) == Ok::<u32, Error>(index),
{
    lemma_be_round_trip(index);
}

/// What an incoming message makes of the state of a download, or why it
/// is refused. `unchoke` and `choke` clear and set the choke flag, `have`
/// marks a piece in the peer's bitfield, and a `piece` appends its block.
/// A block is taken when it is one that [`piece_block`] accepts for the
/// piece in flight, begins within the bytes accumulated so far, answers
/// an outstanding request and leaves the piece no longer than `length`. Every other message is
/// ignored.
pub open spec fn message_effect(
    progress: ProgressModel,
    link: LinkModel,
    length: u32,
    message: MessageModel,
) -> Result<(ProgressModel, LinkModel), Error> {
    match message.id {
        MessageCode::MessageUnchoke => Ok((progress, LinkModel { choked: false, ..link })),
        MessageCode::MessageChoke => Ok((progress, LinkModel { choked: true, ..link })),
        MessageCode::MessageHave => match have_index(message) {
            Ok(index) => Ok(
                (progress, LinkModel { bits: bits_with_piece(link.bits, index), ..link }),
            ),
            Err(error) => Err(error),
        },
        MessageCode::MessagePiece => match piece_block(message, progress.index) {
            Ok((begin, block)) => if begin > progress.downloaded {
                Err(Error::BeginOutOfBounds)
            } else if progress.backlog == 0 {
                Err(Error::UnexpectedBlock)
            } else if progress.downloaded + block.len() > length {
                Err(Error::BlockOverrun)
            } else {
                Ok(
                    (
                        ProgressModel {
                            index: progress.index,
                            data: progress.data + block,
                            downloaded: (progress.downloaded + block.len()) as u32,
                            requested: progress.requested,
                            backlog: (progress.backlog - 1) as u32,
                        },
                        link,
                    ),
                )
            },
            Err(error) => Err(error),
        },
        _ => Ok((progress, link)),
    }
}

impl PieceProgress {
    /// Applies one message that the peer sent. When the message is
    /// refused, neither the attempt nor the connection changes.
    pub fn parse_message(&mut self, client: &mut Client, length: u32, message: &Message) -> (done:
        SyncResult<()>)
        ensures
            match message_effect(old(self)@, old(client).link(), length, message@) {
                Ok((progress, link)) => done is Ok && final(self)@ == progress
                    && final(client).link() == link,
                Err(error) => done == Err::<(), Error>(error) && *final(self) == *old(self)
                    && *final(client) == *old(client),
            },
            final(client).peer == old(client).peer,
            final(client).info_hash == old(client).info_hash,
            old(self).wf(length) ==> final(self).wf(length),
    {
        match message.id {
            MessageCode::MessageUnchoke => {
                client.choked = false;
            },
            MessageCode::MessageChoke => {
                client.choked = true;
            },
            MessageCode::MessageHave => {
                match message.parse_have() {
                    Ok(index) => {
                        client.bitfield.set_piece(index);
                    },
                    Err(error) => {
                        return Err(error);
                    },
                }
            },
            MessageCode::MessagePiece => {
                match message.parse_block(self.index) {
                    Ok((begin, data)) => {
                        if begin > self.downloaded {
                            return Err(Error::BeginOutOfBounds);
                        }
                        if self.backlog == 0 {
                            return Err(Error::UnexpectedBlock);
                        }
                        if data.len() > (length as usize) || self.downloaded > length - (
                        data.len() as u32) {
                            return Err(Error::BlockOverrun);
                        }
                        let received: u32 = data.len() as u32;
                        self.data.extend_from_slice(data.as_slice());
                        self.downloaded = self.downloaded + received;
                        self.backlog = self.backlog - 1;
                        assert(self.data@ =~= old(self).data@ + message@.payload.skip(8));
                    },
                    Err(error) => {
                        return Err(error);
                    },
                }
            },
            _ => {},
        }
        Ok(())
    }
}

} // verus!
