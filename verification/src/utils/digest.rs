//! SHA-1, computed by the `sha1` crate.

use crate::shared::SizedBytes;
use vstd::prelude::*;

verus! {

/// The SHA-1 digest of `data`.
pub uninterp spec fn sha1_hash(data: Seq<u8>) -> Seq<u8>;

/// `Sha1::digest`: the twenty bytes of the SHA-1 digest of `data`.
#[verifier::external_body]
pub(crate) fn sha1_digest(data: &[u8]) -> (digest: SizedBytes)
    ensures
        digest@ == sha1_hash(data@),
{
    <sha1::Sha1 as sha1::Digest>::digest(data).into()
}

} // verus!
