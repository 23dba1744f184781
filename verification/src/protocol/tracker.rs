//! The announce to a tracker and the peers it answers with.

use crate::engine::context::EngineContext;
use crate::serializer::bytes::peer_entry_matches;
use crate::shared::{Error, SizedBytes, SyncResult};
use crate::types::bencode::TrackerResponse;
use crate::types::peer::Peer;
use crate::utils::hexadecimal::{hex_decode, hex_decoding, is_hex};
use crate::utils::text::{decimal, u32_to_string};
use crate::utils::url::{url_encode, url_encoding};
use vstd::prelude::*;
use vstd::string::StringExecFns;
use vstd::utf8::encode_utf8;

verus! {

/// The URL of an announce: the tracker's address, then the info hash
/// and the peer id as escaped bytes. Fails with `InvalidHex` when the
/// info hash is not written in hexadecimal.
pub open spec fn tracker_url(announce: Seq<char>, info_hash: Seq<char>, peer_id: Seq<u8>) -> Result<
    Seq<char>,
    Error,
> {
    let text = encode_utf8(info_hash);
    if !is_hex(text) {
        Err(Error::InvalidHex)
    } else {
        Ok(
            announce + "?info_hash="@ + url_encoding(hex_decoding(text)) + "&peer_id="@
                + url_encoding(peer_id),
        )
    }
}

/// The parameters that an announce adds to its URL, for a file of which
/// `left` bytes are still to be fetched.
pub open spec fn tracker_query(left: u32) -> Seq<(Seq<char>, Seq<char>)> {
    seq![
        ("port"@, "6881"@),
        ("uploaded"@, "0"@),
        ("downloaded"@, "0"@),
        ("left"@, decimal(left as nat)),
        ("corrupt"@, "0"@),
        ("event"@, "started"@),
        ("numwant"@, "200"@),
        ("compact"@, "1"@),
        ("no_peer_id"@, "1"@),
    ]
}

/// Builds the announce for the file of `context`, made under the
/// identity `peer_id`: the URL and the parameters to add to it.
pub fn build_tracker_url(context: &EngineContext, peer_id: &SizedBytes) -> (request: SyncResult<
    (String, Vec<(&'static str, String)>),
>)
    ensures
        match tracker_url(context.announce@, context.info_hash@, peer_id@) {
            Ok(url) => {
                &&& request matches Ok((found, query))
                &&& found@ == url
                &&& query@.len() == 9
                &&& forall|i: int|
                    0 <= i < 9 ==> (#[trigger] query@[i]).0@ == tracker_query(context.length)[i].0
                        && query@[i].1@ == tracker_query(context.length)[i].1
            },
            Err(error) => request matches Err(e) && e == error,
        },
{
    let digest = match hex_decode(context.info_hash.as_str().as_bytes()) {
        Ok(digest) => digest,
        Err(_) => {
            return Err(Error::InvalidHex);
        },
    };
    let info_hash = url_encode(digest.as_slice());
    let peer_id = url_encode(peer_id.as_slice());
    let mut query: Vec<(&'static str, String)> = Vec::new();
    query.push(("port", "6881".to_string()));
    query.push(("uploaded", "0".to_string()));
    query.push(("downloaded", "0".to_string()));
    query.push(("left", u32_to_string(context.length)));
    query.push(("corrupt", "0".to_string()));
    query.push(("event", "started".to_string()));
    query.push(("numwant", "200".to_string()));
    query.push(("compact", "1".to_string()));
    query.push(("no_peer_id", "1".to_string()));
    let mut url = context.announce.clone();
    url.append("?info_hash=");
    url.append(info_hash.as_str());
    url.append("&peer_id=");
    url.append(peer_id.as_str());
    Ok((url, query))
}

/// The peers that a tracker's answer names. Fails with `MissingPeers`
/// when the answer holds no peer list and with `InvalidPeerLength` when
/// the list is not a whole number of six-byte entries.
pub fn request_peers(response: &TrackerResponse) -> (peers: SyncResult<Vec<Peer>>)
    ensures
        match response.peers {
            None => peers matches Err(e) && e == Error::MissingPeers,
            Some(list) => if list@.len() % 6 == 0 {
                &&& peers matches Ok(found)
                &&& found@.len() == list@.len() / 6
                &&& forall|i: int|
                    0 <= i < found@.len() ==> peer_entry_matches(list@, i, #[trigger] found@[i])
            } else {
                peers matches Err(e) && e == Error::InvalidPeerLength
            },
        },
{
    match &response.peers {
        None => Err(Error::MissingPeers),
        Some(list) => Peer::from_bytes(list.as_slice()),
    }
}

} // verus!
