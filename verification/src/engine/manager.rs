//! One engine for each file of a torrent.

use crate::engine::context::EngineContext;
use crate::engine::Engine;
use crate::shared::{Error, SyncResult};
use crate::types::bencode::{MetaInfoFile, MetaInfoFileEntry};
use crate::utils::data::manipulator::piece_hashes;
use crate::utils::digest::sha1_hash;
use crate::utils::hexadecimal::hex_encoding;
use vstd::prelude::*;

verus! {

/// The engines of one torrent.
pub struct EngineManager {
    pub engines: Vec<Engine>,
}

/// What decides an engine: the length of its file and where the file
/// goes below the download directory.
pub struct EnginePlan {
    pub length: u32,
    pub destination: Seq<Seq<char>>,
}

/// A list of names as mathematical values.
pub open spec fn names(list: Seq<String>) -> Seq<Seq<char>> {
    Seq::new(list.len(), |i: int| list[i]@)
}

/// The plans for the first files of a torrent that holds several, in
/// order. The first file that lacks its length or its path decides the
/// failure, and so do piece digests that are not whole as soon as there
/// is a file to plan for.
pub open spec fn file_plans(meta_info: MetaInfoFile, files: Seq<MetaInfoFileEntry>) -> Result<
    Seq<EnginePlan>,
    Error,
>
    decreases files.len(),
{
    if files.len() == 0 {
        Ok(Seq::empty())
    } else {
        match file_plans(meta_info, files.drop_last()) {
            Err(error) => Err(error),
            Ok(plans) => {
                let file = files.last();
                if file.length is None {
                    Err(Error::MissingLength)
                } else if file.path is None {
                    Err(Error::MissingPath)
                } else if piece_hashes(meta_info.info.pieces@) is None {
                    Err(Error::InvalidPieces)
                } else {
                    Ok(
                        plans.push(
                            EnginePlan {
                                length: file.length.unwrap(),
                                destination: names(file.path.unwrap()@),
                            },
                        ),
                    )
                }
            },
        }
    }
}

/// The plans for a torrent: one engine named after the torrent when it
/// holds a single file, one engine for each entry when it holds a list
/// of files, and none when it says neither or both.
pub open spec fn engine_plans(meta_info: MetaInfoFile) -> Result<Seq<EnginePlan>, Error> {
    if meta_info.info.length is Some && meta_info.info.files is None {
        if piece_hashes(meta_info.info.pieces@) is None {
            Err(Error::InvalidPieces)
        } else {
            Ok(
                seq![
                    EnginePlan {
                        length: meta_info.info.length.unwrap(),
                        destination: seq![meta_info.info.name@],
                    },
                ],
            )
        }
    } else if meta_info.info.length is None && meta_info.info.files is Some {
        file_plans(meta_info, meta_info.info.files.unwrap()@)
    } else {
        Ok(Seq::empty())
    }
}

/// Whether an engine is the fresh engine that a plan asks for.
pub open spec fn engine_follows(
    engine: Engine,
    plan: EnginePlan,
    meta_info: MetaInfoFile,
    encoded_info: Seq<u8>,
) -> bool {
    &&& engine.context.length == plan.length
    &&& names(engine.context.destination@) == plan.destination
    &&& engine.context.name@ == meta_info.info.name@
    &&& engine.context.announce@ == meta_info.announce@
    &&& engine.context.info_hash@ == hex_encoding(sha1_hash(encoded_info))
    &&& engine.context.piece_length == meta_info.info.piece_length
    &&& Some(engine.context.hashes()) == piece_hashes(meta_info.info.pieces@)
    &&& engine.downloaders@.len() == 0
    &&& engine.written@.len() == 0
}

/// A copy of a list of names.
pub fn copy_names(list: &Vec<String>) -> (copy: Vec<String>)
    ensures
        names(copy@) == names(list@),
{
    let mut copy: Vec<String> = Vec::new();
    let mut index: usize = 0;
    while index < list.len()
        invariant
            index <= list@.len(),
            copy@.len() == index,
            forall|i: int| 0 <= i < index ==> copy@[i]@ == list@[i]@,
        decreases list@.len() - index,
    {
        copy.push(list[index].clone());
        index = index + 1;
    }
    assert(names(copy@) =~= names(list@));
    copy
}

impl EngineManager {
    /// Builds the engines of a torrent from its metadata and from the
    /// canonical encoding of its info dictionary.
    pub fn new(meta_info: &MetaInfoFile, encoded_info: &[u8]) -> (manager: SyncResult<
        EngineManager,
    >)
        ensures
            match engine_plans(*meta_info) {
                Ok(plans) => manager matches Ok(m) && m.engines@.len() == plans.len() && forall|
                    i: int,
                |
                    0 <= i < plans.len() ==> engine_follows(
                        #[trigger] m.engines@[i],
                        plans[i],
                        *meta_info,
                        encoded_info@,
                    ),
                Err(error) => manager matches Err(e) && e == error,
            },
    {
        let mut engines: Vec<Engine> = Vec::new();
        if let (Some(length), None) = (meta_info.info.length, &meta_info.info.files) {
            let mut destination: Vec<String> = Vec::new();
            destination.push(meta_info.info.name.clone());
            assert(names(destination@) =~= seq![meta_info.info.name@]);
            let context = match EngineContext::new(meta_info, encoded_info, length, destination) {
                Ok(context) => context,
                Err(error) => {
                    return Err(error);
                },
            };
            engines.push(Engine::new(context));
            return Ok(EngineManager { engines });
        }
        if let (None, Some(files)) = (meta_info.info.length, &meta_info.info.files) {
            let mut index: usize = 0;
            while index < files.len()
                invariant
                    index <= files@.len(),
                    engines@.len() == index,
                    meta_info.info.length is None,
                    meta_info.info.files == Some(*files),
                    file_plans(*meta_info, files@.take(index as int)) is Ok,
                    forall|i: int|
                        0 <= i < index ==> engine_follows(
                            #[trigger] engines@[i],
                            file_plans(*meta_info, files@.take(index as int)).unwrap()[i],
                            *meta_info,
                            encoded_info@,
                        ),
                    file_plans(*meta_info, files@.take(index as int)).unwrap().len() == index,
                decreases files@.len() - index,
            {
                let ghost before = files@.take(index as int);
                let ghost upto = files@.take(index + 1);
                assert(upto.drop_last() =~= before);
                assert(upto.last() == files@[index as int]);
                proof {
                    lemma_plans_fail_on(*meta_info, files@, index + 1);
                }
                let file = &files[index];
                let length = match file.length {
                    Some(length) => length,
                    None => {
                        return Err(Error::MissingLength);
                    },
                };
                let path = match &file.path {
                    Some(path) => path,
                    None => {
                        return Err(Error::MissingPath);
                    },
                };
                let destination = copy_names(path);
                let context = match EngineContext::new(
                    meta_info,
                    encoded_info,
                    length,
                    destination,
                ) {
                    Ok(context) => context,
                    Err(error) => {
                        return Err(error);
                    },
                };
                engines.push(Engine::new(context));
                index = index + 1;
            }
            assert(files@.take(index as int) =~= files@);
        }
        Ok(EngineManager { engines })
    }

    /// Whether the torrent holds exactly one file.
    pub fn using_single_mode(&self) -> (single: bool)
        ensures
            single == (self.engines@.len() == 1),
    {
        self.engines.len() == 1
    }

    /// Whether the torrent holds more than one file.
    pub fn using_multi_mode(&self) -> (multi: bool)
        ensures
            multi == (self.engines@.len() > 1),
    {
        self.engines.len() > 1
    }
}

/// Planning fails for a list of files as soon as it fails for its first
/// `count` files, and with the same error.
pub proof fn lemma_plans_fail_on(meta_info: MetaInfoFile, files: Seq<MetaInfoFileEntry>, count: int)
    requires
        0 <= count <= files.len(),
    ensures
        file_plans(meta_info, files.take(count)) matches Err(error) ==> file_plans(
            meta_info,
            files,
        ) == Err::<Seq<EnginePlan>, Error>(error),
    decreases files.len(),
{
    if count < files.len() {
        assert(files.drop_last().take(count) =~= files.take(count));
        lemma_plans_fail_on(meta_info, files.drop_last(), count);
    } else {
        assert(files.take(count) =~= files);
    }
}

} // verus!
