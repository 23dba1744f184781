//! The info hash of a torrent and the list of its piece digests.

use crate::shared::{Error, SizedBytes, SyncResult, HASH_SIZE};
use crate::types::bencode::MetaInfoFile;
use crate::utils::digest::{sha1_digest, sha1_hash};
use crate::utils::hexadecimal::{hex_encode, hex_encoding};
use vstd::prelude::*;

verus! {

/// Copies the twenty bytes that start at `offset`.
pub fn sized_bytes_at(bytes: &[u8], offset: usize) -> (chunk: SizedBytes)
    requires
        offset + HASH_SIZE <= bytes@.len(),
    ensures
        chunk@ == bytes@.subrange(offset as int, offset + HASH_SIZE),
{
    let total: usize = bytes.len();
    let mut chunk: SizedBytes = [0u8; 20];
    let mut i: usize = 0;
    while i < 20
        invariant
            i <= 20,
            total == bytes@.len(),
            offset + 20 <= total,
            forall|k: int| 0 <= k < i ==> chunk@[k] == bytes@[offset + k],
        decreases 20 - i,
    {
        chunk[i] = bytes[offset + i];
        i = i + 1;
    }
    assert(chunk@ =~= bytes@.subrange(offset as int, offset + HASH_SIZE));
    chunk
}

/// The info hash that belongs to a digest: its twenty bytes in
/// lower-case hexadecimal.
pub fn info_hash_of_digest(digest: &SizedBytes) -> (info_hash: String)
    ensures
        info_hash@ == hex_encoding(digest@),
        info_hash@.len() == 40,
{
    hex_encode(digest.as_slice())
}

/// The info hash of a torrent, from the canonical encoding of its info
/// dictionary: the SHA-1 digest of those bytes, in hexadecimal.
pub fn hash_meta_info(encoded_info: &[u8]) -> (info_hash: String)
    ensures
        info_hash@ == hex_encoding(sha1_hash(encoded_info@)),
{
    let digest = sha1_digest(encoded_info);
    info_hash_of_digest(&digest)
}

/// The digests that `raw` holds one after the other, if it is made of
/// whole digests.
pub open spec fn piece_hashes(raw: Seq<u8>) -> Option<Seq<Seq<u8>>> {
    if raw.len() % HASH_SIZE as nat == 0 {
        Some(
            Seq::new(
                raw.len() / HASH_SIZE as nat,
                |i: int| raw.subrange(i * HASH_SIZE, i * HASH_SIZE + HASH_SIZE),
            ),
        )
    } else {
        None
    }
}

/// Cuts the metadata's `pieces` field into the digests of the pieces, in
/// order. Fails with `InvalidPieces` when the field is not a whole
/// number of digests.
pub fn split_piece_bytes(to_split: &MetaInfoFile) -> (pieces: SyncResult<Vec<SizedBytes>>)
    ensures
        match piece_hashes(to_split.info.pieces@) {
            Some(hashes) => pieces matches Ok(list) && list@.len() == hashes.len() && forall|
                i: int,
            |
                0 <= i < hashes.len() ==> (#[trigger] list@[i])@ == hashes[i],
            None => pieces == Err::<Vec<SizedBytes>, Error>(Error::InvalidPieces),
        },
{
    let raw = to_split.info.pieces.as_slice();
    if raw.len() % 20 != 0 {
        return Err(Error::InvalidPieces);
    }
    let count: usize = raw.len() / 20;
    let mut pieces: Vec<SizedBytes> = Vec::new();
    let mut index: usize = 0;
    while index < count
        invariant
            index <= count,
            count == raw@.len() / 20,
            count * 20 <= usize::MAX,
            raw@.len() % 20 == 0,
            pieces@.len() == index,
            forall|i: int|
                0 <= i < index ==> (#[trigger] pieces@[i])@ == raw@.subrange(i * 20, i * 20 + 20),
        decreases count - index,
    {
        let piece = sized_bytes_at(raw, index * 20);
        pieces.push(piece);
        index = index + 1;
    }
    Ok(pieces)
}

} // verus!
