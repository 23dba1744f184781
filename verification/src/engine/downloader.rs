//! The decisions of a peer worker and of the download of one piece.
//!
//! A worker owns one connection. It takes one piece of work at a time
//! and either hands it back or turns it into a result. While a piece is
//! in flight, requests are pipelined up to a fixed backlog, and the
//! peer's messages are applied one by one until the piece is whole.

use crate::connection::client::Client;
use crate::serializer::formatter::{have_message, request_message};
use crate::shared::{Error, SizedBytes, SyncResult, MAX_BACKLOG, MAX_BLOCK_SIZE};
use crate::types::bitfield::bits_have_piece;
use crate::types::message::{Message, MessageCode, MessageModel};
use crate::types::peer::Peer;
use crate::types::piece::{PieceProgress, PieceResult, PieceWork, ProgressModel};
use crate::utils::digest::{sha1_digest, sha1_hash};
use vstd::prelude::*;

verus! {

/// One worker: the peer it serves and the torrent it works on.
pub struct Downloader {
    pub peer: Peer,
    pub info_hash: String,
}

/// What happened to a worker.
pub enum WorkerEvent {
    /// The connection stands and the bitfield was received.
    Started,
    /// A piece of work was taken from the queue.
    Work(PieceWork),
    /// The attempt at a piece ended, with its bytes or with a failure.
    Downloaded(PieceWork, SyncResult<Vec<u8>>),
    /// The queue is closed and empty.
    QueueClosed,
}

/// What a worker does next.
pub enum WorkerAction {
    /// Send these messages, then take work from the queue.
    Greet(Vec<Message>),
    /// Put the work back on the queue as it is, then take other work.
    Requeue(PieceWork),
    /// Download the piece from this peer.
    Download(PieceWork),
    /// Send the `have` to the peer and publish the result, then take
    /// other work.
    Publish(Message, PieceResult),
    /// Leave the loop: there is nothing more to do.
    Stop,
}

/// A message without payload.
pub open spec fn signal(id: MessageCode) -> MessageModel {
    MessageModel { id, payload: Seq::empty() }
}

impl Downloader {
    pub fn new(peer: Peer, info_hash: String) -> (downloader: Downloader)
        ensures
            downloader.peer == peer,
            downloader.info_hash == info_hash,
    {
        Downloader { peer, info_hash }
    }

    /// One step of a worker. On start it sends `unchoke` and
    /// `interested`. Work for a piece that the peer lacks goes back to
    /// the queue untouched, other work is downloaded. A failed attempt
    /// puts the work back, a successful one announces the piece to the
    /// peer and publishes it. Work is never dropped: it comes back as it
    /// was or as its result.
    pub fn start_safe_worker(&self, client: &Client, event: WorkerEvent) -> (action: WorkerAction)
        ensures
            match event {
                WorkerEvent::Started => action matches WorkerAction::Greet(messages)
                    && messages@.len() == 2 && messages@[0]@ == signal(MessageCode::MessageUnchoke)
                    && messages@[1]@ == signal(MessageCode::MessageInterested),
                WorkerEvent::Work(work) => if bits_have_piece(client.bitfield@, work.index) {
                    action == WorkerAction::Download(work)
                } else {
                    action == WorkerAction::Requeue(work)
                },
                WorkerEvent::Downloaded(work, Ok(data)) => action matches WorkerAction::Publish(
                    have,
                    result,
                ) && have@ == have_message(work.index) && result.index == work.index && result.data
                    == data,
                WorkerEvent::Downloaded(work, Err(_)) => action == WorkerAction::Requeue(work),
                WorkerEvent::QueueClosed => action == WorkerAction::Stop,
            },
    {
        match event {
            WorkerEvent::Started => {
                let mut messages: Vec<Message> = Vec::new();
                messages.push(Message::new(MessageCode::MessageUnchoke, Vec::new()));
                messages.push(Message::new(MessageCode::MessageInterested, Vec::new()));
                WorkerAction::Greet(messages)
            },
            WorkerEvent::Work(work) => {
                if !client.bitfield.has_piece(work.index) {
                    WorkerAction::Requeue(work)
                } else {
                    WorkerAction::Download(work)
                }
            },
            WorkerEvent::Downloaded(work, outcome) => {
                match outcome {
                    Ok(data) => WorkerAction::Publish(
                        Message::format_have(work.index),
                        PieceResult::new(work.index, data),
                    ),
                    Err(_) => WorkerAction::Requeue(work),
                }
            },
            WorkerEvent::QueueClosed => WorkerAction::Stop,
        }
    }
}

/// How many requests go out in one round: none while the peer chokes,
/// otherwise as many as the backlog still admits and the piece still
/// needs.
pub open spec fn round_size(progress: ProgressModel, length: u32, choked: bool) -> int {
    if choked || progress.backlog >= MAX_BACKLOG || progress.requested >= length {
        0
    } else {
        let room = MAX_BACKLOG - progress.backlog;
        let missing = length - progress.requested;
        let blocks = (missing + MAX_BLOCK_SIZE - 1) / (MAX_BLOCK_SIZE as int);
        if room < blocks {
            room
        } else {
            blocks
        }
    }
}

/// Where request `k` of a round begins within the piece.
pub open spec fn round_begin(progress: ProgressModel, k: int) -> int {
    progress.requested + k * MAX_BLOCK_SIZE
}

/// How many bytes a request that begins at `begin` asks for: a full
/// block, or what is left of the piece.
pub open spec fn block_size(length: u32, begin: int) -> int {
    if length - begin < MAX_BLOCK_SIZE {
        length - begin
    } else {
        MAX_BLOCK_SIZE as int
    }
}

/// The state of an attempt after a round of `count` requests.
pub open spec fn after_round(progress: ProgressModel, length: u32, count: int) -> ProgressModel {
    ProgressModel {
        requested: if count == 0 {
            progress.requested
        } else if round_begin(progress, count) > length {
            length
        } else {
            round_begin(progress, count) as u32
        },
        backlog: (progress.backlog + count) as u32,
        ..progress
    }
}

/// What the end of an attempt yields: nothing when the time ran out or
/// the exchange failed, nothing when bytes are missing or do not hash
/// to `hash`, and otherwise the bytes of the piece.
pub open spec fn attempt_outcome(
    work: PieceWork,
    progress: ProgressModel,
    attempt: Option<SyncResult<()>>,
    digest: Seq<u8>,
) -> Result<Seq<u8>, Error> {
    match attempt {
        None => Err(Error::Timeout),
        Some(Err(error)) => Err(error),
        Some(Ok(_)) => checked_piece(work, progress, digest),
    }
}

/// The bytes of a piece whose attempt ran to its end, if all of them
/// arrived and `digest`, their digest, is the expected one.
pub open spec fn checked_piece(work: PieceWork, progress: ProgressModel, digest: Seq<u8>) -> Result<
    Seq<u8>,
    Error,
> {
    if progress.downloaded != work.length || progress.data.len() != work.length {
        Err(Error::IncompletePiece)
    } else if digest != work.hash@ {
        Err(Error::HashMismatch)
    } else {
        Ok(progress.data)
    }
}

/// Whether two digests hold the same bytes.
pub fn same_digest(left: &SizedBytes, right: &SizedBytes) -> (same: bool)
    ensures
        same == (left@ == right@),
{
    let mut i: usize = 0;
    while i < 20
        invariant
            i <= 20,
            forall|k: int| 0 <= k < i ==> left@[k] == right@[k],
        decreases 20 - i,
    {
        if left[i] != right[i] {
            return false;
        }
        i = i + 1;
    }
    assert(left@ =~= right@);
    true
}

impl PieceWork {
    /// One round of the download of this piece. `None` says that the
    /// piece is whole. Otherwise the requests of this round are handed
    /// back, to be sent before the next message of the peer is awaited
    /// and applied with `parse_message`; there are none while the peer
    /// chokes or the backlog is full.
    ///
    /// Request `k` of a round asks for the block that begins where the
    /// requests before it end: `MAX_BLOCK_SIZE` bytes, or what is left of
    /// the piece.
    pub fn download_piece_safe(&self, client: &Client, progress: &mut PieceProgress) -> (round:
        Option<Vec<Message>>)
        ensures
            old(progress).downloaded >= self.length ==> round is None
                && *final(progress) == *old(progress),
            old(progress).downloaded < self.length ==> ({
                let count = round_size(old(progress)@, self.length, client.choked);
                &&& round matches Some(requests)
                &&& requests@.len() == count
                &&& forall|k: int|
                    0 <= k < count ==> (#[trigger] requests@[k])@ == request_message(
                        self.index,
                        round_begin(old(progress)@, k) as u32,
                        block_size(self.length, round_begin(old(progress)@, k)) as u32,
                    )
                &&& final(progress)@ == after_round(old(progress)@, self.length, count)
            }),
            old(progress).wf(self.length) ==> final(progress).wf(self.length),
    {
        if progress.downloaded >= self.length {
            return None;
        }
        let mut requests: Vec<Message> = Vec::new();
        if !client.choked {
            let ghost start = progress@;
            let ghost count = round_size(start, self.length, false);
            while progress.backlog < MAX_BACKLOG && progress.requested < self.length
                invariant
                    0 <= requests@.len() <= count,
                    count == round_size(start, self.length, false),
                    progress@ == after_round(start, self.length, requests@.len() as int),
                    forall|k: int|
                        0 <= k < requests@.len() ==> (#[trigger] requests@[k])@ == request_message(
                            self.index,
                            round_begin(start, k) as u32,
                            block_size(self.length, round_begin(start, k)) as u32,
                        ),
                decreases MAX_BACKLOG - progress.backlog,
            {
                let mut block: u32 = MAX_BLOCK_SIZE;
                if self.length - progress.requested < block {
                    block = self.length - progress.requested;
                }
                requests.push(Message::format_request(self.index, progress.requested, block));
                progress.backlog = progress.backlog + 1;
                progress.requested = progress.requested + block;
            }
            assert(requests@.len() == count);
        }
        Some(requests)
    }

    /// Ends an attempt whose exchange ran to its end, given the digest
    /// of the bytes that arrived. The bytes are handed out only when the
    /// piece is whole and the digest is the expected one.
    pub fn check_piece(&self, progress: PieceProgress, digest: &SizedBytes) -> (data: SyncResult<
        Vec<u8>,
    >)
        ensures
            match checked_piece(*self, progress@, digest@) {
                Ok(bytes) => data matches Ok(found) && found@ == bytes,
                Err(error) => data matches Err(e) && e == error,
            },
    {
        if progress.downloaded != self.length || progress.data.len() != self.length as usize {
            return Err(Error::IncompletePiece);
        }
        if !same_digest(digest, &self.hash) {
            return Err(Error::HashMismatch);
        }
        Ok(progress.data)
    }

    /// Ends an attempt at this piece. `attempt` is `None` when the time
    /// budget ran out, and otherwise tells how the exchange ended. An
    /// attempt that timed out or failed yields no bytes, whatever had
    /// arrived. One that ran to its end yields the piece, if all of it
    /// arrived and its SHA-1 digest is the expected one.
    pub fn download_piece(&self, progress: PieceProgress, attempt: Option<SyncResult<()>>) -> (data:
        SyncResult<Vec<u8>>)
        ensures
            match attempt_outcome(*self, progress@, attempt, sha1_hash(progress.data@)) {
                Ok(bytes) => data matches Ok(found) && found@ == bytes,
                Err(error) => data matches Err(e) && e == error,
            },
    {
        match attempt {
            None => Err(Error::Timeout),
            Some(Err(error)) => Err(error),
            Some(Ok(_)) => {
                let digest = sha1_digest(progress.data.as_slice());
                self.check_piece(progress, &digest)
            },
        }
    }
}

} // verus!
