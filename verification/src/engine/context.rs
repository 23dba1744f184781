//! What one engine knows of the file it assembles.

use crate::shared::{Error, SizedBytes, SyncResult};
use crate::types::bencode::MetaInfoFile;
use crate::utils::data::manipulator::{hash_meta_info, piece_hashes, split_piece_bytes};
use crate::utils::digest::sha1_hash;
use crate::utils::hexadecimal::hex_encoding;
use vstd::prelude::*;

verus! {

/// The torrent as one engine sees it: its name and tracker, its info
/// hash in hexadecimal, the nominal piece length, the length of the file
/// this engine assembles, the digests of the pieces, and where below the
/// download directory the file goes, one path component after the other.
pub struct EngineContext {
    pub name: String,
    pub announce: String,
    pub info_hash: String,
    pub piece_length: u32,
    pub length: u32,
    pub pieces: Vec<SizedBytes>,
    pub destination: Vec<String>,
}

impl EngineContext {
    /// The digests of the pieces as mathematical values.
    pub open spec fn hashes(&self) -> Seq<Seq<u8>> {
        Seq::new(self.pieces@.len(), |i: int| self.pieces@[i]@)
    }

    /// The context of an engine that assembles a file of `length` bytes
    /// at `destination`. `encoded_info` is the canonical encoding of the
    /// metadata's info dictionary, from which the info hash is taken.
    /// Fails with `InvalidPieces` when the metadata's piece digests are
    /// not whole.
    pub fn new(
        meta_info: &MetaInfoFile,
        encoded_info: &[u8],
        length: u32,
        destination: Vec<String>,
    ) -> (context: SyncResult<EngineContext>)
        ensures
            match piece_hashes(meta_info.info.pieces@) {
                Some(hashes) => context matches Ok(c) && c.name@ == meta_info.info.name@
                    && c.announce@ == meta_info.announce@ && c.info_hash@ == hex_encoding(
                    sha1_hash(encoded_info@),
                ) && c.piece_length == meta_info.info.piece_length && c.length == length
                    && c.hashes() == hashes && c.destination == destination,
                None => context matches Err(e) && e == Error::InvalidPieces,
            },
    {
        let name = meta_info.info.name.clone();
        let announce = meta_info.announce.clone();
        let piece_length = meta_info.info.piece_length;
        let pieces = match split_piece_bytes(meta_info) {
            Ok(pieces) => pieces,
            Err(error) => {
                return Err(error);
            },
        };
        let info_hash = hash_meta_info(encoded_info);
        let context = EngineContext {
            name,
            announce,
            info_hash,
            piece_length,
            length,
            pieces,
            destination,
        };
        assert(context.hashes() =~= piece_hashes(meta_info.info.pieces@).unwrap());
        Ok(context)
    }
}

} // verus!
