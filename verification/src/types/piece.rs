//! The unit of work, its scratch state and its result.

use crate::shared::{SizedBytes, MAX_BACKLOG};
use vstd::prelude::*;

verus! {

/// One piece to fetch: its place in the torrent, the digest its bytes
/// must have, and how many bytes it holds.
#[derive(Debug, Clone, Copy)]
pub struct PieceWork {
    pub index: u32,
    pub hash: SizedBytes,
    pub length: u32,
}

/// A piece that was fetched whole.
#[derive(Debug)]
pub struct PieceResult {
    pub index: u32,
    pub data: Vec<u8>,
}

/// How far one attempt at one piece has come.
#[derive(Debug)]
pub struct PieceProgress {
    pub index: u32,
    /// The blocks received so far, in the order they arrived.
    pub data: Vec<u8>,
    /// Bytes received.
    pub downloaded: u32,
    /// Bytes asked for.
    pub requested: u32,
    /// Requests sent and not yet answered.
    pub backlog: u32,
}

/// The state of one attempt at a piece as a mathematical value.
pub struct ProgressModel {
    pub index: u32,
    pub data: Seq<u8>,
    pub downloaded: u32,
    pub requested: u32,
    pub backlog: u32,
}

impl View for PieceProgress {
    type V = ProgressModel;

    open spec fn view(&self) -> ProgressModel {
        ProgressModel {
            index: self.index,
            data: self.data@,
            downloaded: self.downloaded,
            requested: self.requested,
            backlog: self.backlog,
        }
    }
}

impl PieceWork {
    pub fn new(index: u32, hash: SizedBytes, length: u32) -> (work: PieceWork)
        ensures
            work.index == index,
            work.hash == hash,
            work.length == length,
    {
        PieceWork { index, hash, length }
    }
}

impl PieceResult {
    pub fn new(index: u32, data: Vec<u8>) -> (result: PieceResult)
        ensures
            result.index == index,
            result.data == data,
    {
        PieceResult { index, data }
    }
}

impl PieceProgress {
    /// The bounds that hold of an attempt at a piece of `length` bytes
    /// from its start to its end.
    pub open spec fn wf(&self, length: u32) -> bool {
        &&& self.data@.len() == self.downloaded
        &&& self.downloaded <= length
        &&& self.requested <= length
        &&& self.backlog <= MAX_BACKLOG
    }

    /// A fresh attempt at piece `index`: nothing asked for, nothing received.
    pub fn new(index: u32) -> (progress: PieceProgress)
        ensures
            progress.index == index,
            progress.data@ == Seq::<u8>::empty(),
            progress.downloaded == 0,
            progress.requested == 0,
            progress.backlog == 0,
            forall|length: u32| progress.wf(length),
    {
        PieceProgress { index, data: Vec::new(), downloaded: 0, requested: 0, backlog: 0 }
    }
}

} // verus!
