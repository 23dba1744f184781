//! The orchestrator and its workers.
//!
//! An engine assembles one file. It cuts the file into pieces of work,
//! builds one worker for each peer, and places each finished piece at its
//! offset in the file. A piece is placed once: the download is complete
//! when every piece has been placed.

pub mod context;
pub mod downloader;
pub mod manager;

use crate::engine::context::EngineContext;
use crate::engine::downloader::Downloader;
use crate::shared::{Error, SyncResult};
use crate::types::peer::Peer;
use crate::types::piece::{PieceResult, PieceWork};
use crate::utils::data::calculator::{
    calculate_bounds_for_piece,
    calculate_piece_size,
    piece_begin,
    piece_size,
};
use vstd::prelude::*;

verus! {

/// The orchestrator of one file.
pub struct Engine {
    pub context: EngineContext,
    pub downloaders: Vec<Downloader>,
    /// For each piece, whether it has been placed in the file.
    pub written: Vec<bool>,
}

/// What happened to an engine.
pub enum EngineEvent {
    /// The download begins.
    Start,
    /// The tracker named these peers.
    Peers(Vec<Peer>),
    /// A worker published a piece.
    Piece(PieceResult),
}

/// What an engine asks for next.
pub enum EngineAction {
    /// Open the work queue and the result channel with room for
    /// `capacity` items each, and put `work` on the queue.
    Seed { capacity: usize, work: Vec<PieceWork> },
    /// Start one worker for each downloader that was added.
    Spawn,
    /// Write `data` at `offset` in the destination file.
    Write { offset: u64, data: Vec<u8> },
}

/// How many pieces have been placed.
pub open spec fn written_count(written: Seq<bool>) -> nat
    decreases written.len(),
{
    if written.len() == 0 {
        0
    } else {
        written_count(written.drop_last()) + if written.last() {
            1nat
        } else {
            0nat
        }
    }
}

/// Why an engine cannot start, if anything stands against it: it has
/// started before, there are more pieces than a 32-bit index can number,
/// or the last piece would begin beyond the end of the file.
pub open spec fn plan_fault(context: EngineContext, written: Seq<bool>) -> Option<Error> {
    if written.len() > 0 {
        Some(Error::AlreadyStarted)
    } else if context.pieces@.len() >= u32::MAX {
        Some(Error::TooManyPieces)
    } else if context.pieces@.len() > 0 && piece_begin(
        context.piece_length as int,
        context.pieces@.len() - 1,
    ) > context.length {
        Some(Error::InconsistentPieces)
    } else {
        None
    }
}

/// The work for piece `index`: its digest from the metadata and its
/// length from its place in the file.
pub open spec fn planned_work(context: EngineContext, index: int) -> PieceWork {
    PieceWork {
        index: index as u32,
        hash: context.pieces@[index],
        length: piece_size(context.length as int, context.piece_length as int, index) as u32,
    }
}

/// What a published piece leads to: either the offset at which it is
/// written, or the reason it is refused. A piece is refused when the
/// torrent has no such piece, when it was placed before, or when it
/// would begin beyond the end of the file.
pub open spec fn placement(context: EngineContext, written: Seq<bool>, index: u32) -> Result<
    int,
    Error,
> {
    if index >= written.len() {
        Err(Error::UnknownPiece)
    } else if written[index as int] {
        Err(Error::DuplicatePiece)
    } else if piece_begin(context.piece_length as int, index as int) > context.length {
        Err(Error::InconsistentPieces)
    } else {
        Ok(piece_begin(context.piece_length as int, index as int))
    }
}

/// Whether a worker is the one that an engine adds for a peer: it serves
/// that peer, for the torrent of the engine.
pub open spec fn added_worker(downloader: Downloader, peer: Peer, context: EngineContext) -> bool {
    downloader.peer == peer && downloader.info_hash@ == context.info_hash@
}

/// No more pieces are placed than there are.
pub proof fn lemma_count_bounded(written: Seq<bool>)
    ensures
        written_count(written) <= written.len(),
    decreases written.len(),
{
    if written.len() > 0 {
        lemma_count_bounded(written.drop_last());
    }
}

/// All pieces are placed exactly when as many are placed as there are.
pub proof fn lemma_count_full(written: Seq<bool>)
    ensures
        written_count(written) == written.len() <==> forall|i: int|
            0 <= i < written.len() ==> written[i],
    decreases written.len(),
{
    if written.len() > 0 {
        let front = written.drop_last();
        lemma_count_full(front);
        lemma_count_bounded(front);
        if written_count(written) == written.len() {
            assert forall|i: int| 0 <= i < written.len() implies written[i] by {
                if i < front.len() {
                    assert(front[i]);
                }
            }
        }
        if forall|i: int| 0 <= i < written.len() ==> written[i] {
            assert forall|i: int| 0 <= i < front.len() implies front[i] by {
                assert(written[i]);
            }
        }
    }
}

/// Placing a piece that was missing raises the count by one.
pub proof fn lemma_count_placed(written: Seq<bool>, index: int)
    requires
        0 <= index < written.len(),
        !written[index],
    ensures
        written_count(written.update(index, true)) == written_count(written) + 1,
    decreases written.len(),
{
    let after = written.update(index, true);
    if index == written.len() - 1 {
        assert(after.drop_last() =~= written.drop_last());
    } else {
        assert(after.drop_last() =~= written.drop_last().update(index, true));
        lemma_count_placed(written.drop_last(), index);
    }
}

/// Where nothing is placed, the count is zero.
pub proof fn lemma_count_none(written: Seq<bool>)
    requires
        forall|i: int| 0 <= i < written.len() ==> !written[i],
    ensures
        written_count(written) == 0,
    decreases written.len(),
{
    if written.len() > 0 {
        lemma_count_none(written.drop_last());
    }
}

impl Engine {
    /// An engine that has not started: no workers, no piece placed.
    pub fn new(context: EngineContext) -> (engine: Engine)
        ensures
            engine.context == context,
            engine.downloaders@.len() == 0,
            engine.written@.len() == 0,
    {
        Engine { context, downloaders: Vec::new(), written: Vec::new() }
    }

    /// Whether the download is over: the engine has started and every
    /// piece has been placed, which takes as many distinct results as
    /// there are pieces.
    pub fn is_complete(&self) -> (complete: bool)
        ensures
            complete == (self.written@.len() == self.context.pieces@.len() && written_count(
                self.written@,
            ) == self.written@.len()),
    {
        if self.written.len() != self.context.pieces.len() {
            return false;
        }
        let mut index: usize = 0;
        while index < self.written.len()
            invariant
                index <= self.written@.len(),
                forall|i: int| 0 <= i < index ==> self.written@[i],
            decreases self.written@.len() - index,
        {
            if !self.written[index] {
                proof {
                    lemma_count_full(self.written@);
                }
                return false;
            }
            index = index + 1;
        }
        proof {
            lemma_count_full(self.written@);
        }
        true
    }

    /// One step of the orchestrator.
    ///
    /// `Start` cuts the file into work, one item for each piece digest
    /// in order, each with the length that its place in the file gives
    /// it, and asks for queues that hold one item more than there are
    /// pieces. An engine that holds pieces starts once. `Peers` adds one worker for each peer. `Piece` places a
    /// published piece: it is written at the offset of its index, once.
    /// A step that fails changes nothing.
    pub fn download_torrent(&mut self, event: EngineEvent) -> (action: SyncResult<EngineAction>)
        ensures
            final(self).context == old(self).context,
            action is Err ==> *final(self) == *old(self),
            match event {
                EngineEvent::Start => match plan_fault(old(self).context, old(self).written@) {
                    Some(error) => action matches Err(e) && e == error,
                    None => {
                        &&& action matches Ok(EngineAction::Seed { capacity, work })
                        &&& capacity == old(self).context.pieces@.len() + 1
                        &&& work@.len() == old(self).context.pieces@.len()
                        &&& forall|i: int|
                            0 <= i < work@.len() ==> #[trigger] work@[i] == planned_work(
                                old(self).context,
                                i,
                            )
                        &&& final(self).written@ == Seq::new(
                            old(self).context.pieces@.len(),
                            |i: int| false,
                        )
                        &&& written_count(final(self).written@) == 0
                        &&& final(self).downloaders == old(self).downloaders
                    },
                },
                EngineEvent::Peers(peers) => {
                    &&& action matches Ok(EngineAction::Spawn)
                    &&& final(self).written == old(self).written
                    &&& final(self).downloaders@.len() == old(self).downloaders@.len()
                        + peers@.len()
                    &&& forall|i: int|
                        0 <= i < old(self).downloaders@.len() ==> final(self).downloaders@[i]
                            == old(self).downloaders@[i]
                    &&& forall|i: int|
                        0 <= i < peers@.len() ==> added_worker(
                            #[trigger] final(self).downloaders@[old(self).downloaders@.len() + i],
                            peers@[i],
                            old(self).context,
                        )
                },
                EngineEvent::Piece(result) => match placement(
                    old(self).context,
                    old(self).written@,
                    result.index,
                ) {
                    Ok(begin) => {
                        &&& action matches Ok(EngineAction::Write { offset, data })
                        &&& offset == begin
                        &&& data == result.data
                        &&& final(self).written@ == old(self).written@.update(
                            result.index as int,
                            true,
                        )
                        &&& written_count(final(self).written@) == written_count(
                            old(self).written@,
                        ) + 1
                        &&& final(self).downloaders == old(self).downloaders
                    },
                    Err(error) => action matches Err(e) && e == error,
                },
            },
    {
        match event {
            EngineEvent::Start => {
                if self.written.len() > 0 {
                    return Err(Error::AlreadyStarted);
                }
                let count: usize = self.context.pieces.len();
                if count >= u32::MAX as usize {
                    return Err(Error::TooManyPieces);
                }
                let piece_length: u32 = self.context.piece_length;
                let length: u32 = self.context.length;
                assert(0 <= count * piece_length <= u32::MAX * u32::MAX) by (nonlinear_arith)
                    requires
                        0 <= count <= u32::MAX,
                        0 <= piece_length <= u32::MAX,
                ;
                assert((count - 1) * piece_length == count * piece_length - piece_length)
                    by (nonlinear_arith);
                if count > 0 && (count as u64 - 1) * (piece_length as u64) > length as u64 {
                    return Err(Error::InconsistentPieces);
                }
                let mut work: Vec<PieceWork> = Vec::new();
                let mut written: Vec<bool> = Vec::new();
                let mut index: usize = 0;
                while index < count
                    invariant
                        index <= count,
                        count == self.context.pieces@.len(),
                        count < u32::MAX,
                        piece_length == self.context.piece_length,
                        length == self.context.length,
                        count > 0 ==> (count - 1) * piece_length <= length,
                        work@.len() == index,
                        written@.len() == index,
                        forall|i: int| 0 <= i < index ==> !written@[i],
                        forall|i: int|
                            0 <= i < index ==> #[trigger] work@[i] == planned_work(self.context, i),
                    decreases count - index,
                {
                    assert(index * piece_length <= (count - 1) * piece_length)
                        by (nonlinear_arith)
                        requires
                            index <= count - 1,
                            0 <= piece_length,
                    ;
                    let size = calculate_piece_size(length, piece_length, index as u32);
                    work.push(PieceWork::new(index as u32, self.context.pieces[index], size));
                    written.push(false);
                    index = index + 1;
                }
                assert(written@ =~= Seq::new(count as nat, |i: int| false));
                proof {
                    lemma_count_none(written@);
                }
                self.written = written;
                Ok(EngineAction::Seed { capacity: count + 1, work })
            },
            EngineEvent::Peers(peers) => {
                let mut index: usize = 0;
                while index < peers.len()
                    invariant
                        index <= peers@.len(),
                        self.context == old(self).context,
                        self.written == old(self).written,
                        self.downloaders@.len() == old(self).downloaders@.len() + index,
                        forall|i: int|
                            0 <= i < old(self).downloaders@.len() ==> self.downloaders@[i]
                                == old(self).downloaders@[i],
                        forall|i: int|
                            0 <= i < index ==> added_worker(
                                #[trigger] self.downloaders@[old(self).downloaders@.len() + i],
                                peers@[i],
                                self.context,
                            ),
                    decreases peers@.len() - index,
                {
                    let downloader = Downloader::new(peers[index], self.context.info_hash.clone());
                    self.downloaders.push(downloader);
                    index = index + 1;
                }
                Ok(EngineAction::Spawn)
            },
            EngineEvent::Piece(result) => {
                let index: usize = result.index as usize;
                if index >= self.written.len() {
                    return Err(Error::UnknownPiece);
                }
                if self.written[index] {
                    return Err(Error::DuplicatePiece);
                }
                let piece_length: u32 = self.context.piece_length;
                let length: u32 = self.context.length;
                assert(result.index * piece_length == piece_begin(
                    piece_length as int,
                    result.index as int,
                ));
                assert(0 <= result.index * piece_length <= u32::MAX * u32::MAX)
                    by (nonlinear_arith)
                    requires
                        0 <= result.index <= u32::MAX,
                        0 <= piece_length <= u32::MAX,
                ;
                if (result.index as u64) * (piece_length as u64) > length as u64 {
                    return Err(Error::InconsistentPieces);
                }
                let (begin, _end) = calculate_bounds_for_piece(length, piece_length, result.index);
                proof {
                    lemma_count_placed(self.written@, index as int);
                }
                self.written.set(index, true);
                Ok(EngineAction::Write { offset: begin as u64, data: result.data })
            },
        }
    }
}

} // verus!
