//! The fields of a torrent's metadata and of a tracker's answer, as the
//! engine consumes them once they have been decoded.

use vstd::prelude::*;

verus! {

/// A torrent's metadata.
pub struct MetaInfoFile {
    pub info: MetaInfoDictionary,
    pub announce: String,
    pub announce_list: Option<Vec<Vec<String>>>,
    pub creation_date: Option<u32>,
    pub comment: Option<String>,
    pub created_by: Option<String>,
    pub encoding: Option<String>,
}

/// The part of the metadata that identifies the content.
pub struct MetaInfoDictionary {
    pub name: String,
    pub piece_length: u32,
    /// The twenty-byte digests of all pieces, one after the other.
    pub pieces: Vec<u8>,
    pub private: Option<u32>,
    /// Present when the torrent holds a single file.
    pub length: Option<u32>,
    pub md5sum: Option<String>,
    /// Present when the torrent holds several files.
    pub files: Option<Vec<MetaInfoFileEntry>>,
}

/// One file of a torrent that holds several.
pub struct MetaInfoFileEntry {
    pub length: Option<u32>,
    pub path: Option<Vec<String>>,
    pub md5sum: Option<String>,
}

/// What a tracker answers to an announce.
pub struct TrackerResponse {
    pub failure_reason: Option<String>,
    pub warning_message: Option<String>,
    pub interval: Option<u32>,
    pub min_interval: Option<u32>,
    pub tracker_id: Option<String>,
    pub complete: Option<u32>,
    pub incomplete: Option<u32>,
    /// The compact peer list: six bytes for each peer.
    pub peers: Option<Vec<u8>>,
}

impl MetaInfoFile {
    /// Whether the metadata describes exactly one file.
    pub fn is_single_file_mode(&self) -> (single: bool)
        ensures
            single == (self.info.length is Some && self.info.files is None),
    {
        self.info.length.is_some() && self.info.files.is_none()
    }

    /// Whether the metadata describes a list of files.
    pub fn is_multi_file_mode(&self) -> (multi: bool)
        ensures
            multi == (self.info.length is None && self.info.files is Some),
    {
        self.info.length.is_none() && self.info.files.is_some()
    }
}

} // verus!
