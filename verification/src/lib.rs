//! Decoder for a chunk-compressed game-save container: a fixed metadata
//! header, a sequence of independently zlib-compressed body chunks, and a
//! recursive, tag-dispatched object/property grammar inside the reassembled
//! body stream.

use vstd::prelude::*;

pub mod bytes;
pub mod chunks;
pub mod containers;
pub mod error;
pub mod header;
pub mod objects;
pub mod property;
pub mod save_data;
pub mod strings;

pub use chunks::{reassemble, CompressedSaveFileBody, MAX_CHUNK_SIZE};
pub use containers::{Array, SizedMap};
pub use error::Error;
pub use header::SaveFileHeader;
pub use objects::{
    ActorHeader, ActorObject, ComponentHeader, ComponentObject, Level, Object, ObjectHeader,
    ObjectReference, ObjectType, SaveFileBody,
};
pub use property::{
    ArrayProperty, BoolProperty, ByteProperty, BytePropertyValue, EnumProperty, FloatProperty,
    Int64Property, IntProperty, KVPair, MapProperty, NameProperty, ObjectProperty, Property,
    PropertyKind, PropertyList, SetProperty, StrProperty, StructProperty, TextProperty, TypedData,
};
pub use save_data::{
    ActorSaveHeader, MD5Hash, ObjectBaseSaveHeader, ObjectReferenceDisc, ObjectSaveHeader,
    PerStreamingLevelSaveData, PersistentAndRuntimeSaveData, Text, TextHistoryType, Transform,
    UnresolvedWorldSaveData, WPGridValidationData, WorldPartitionValidationData,
};
pub use strings::{ADAString, SaveString};

verus! {

use crate::chunks::{chunk_views, spec_read_chunk, spec_read_chunks, spec_reassemble, ChunkView};
use crate::error::{kind_of, ErrorKind};
use crate::header::spec_read_header;
use crate::objects::{level_consistent, spec_body_end};

/// The shared boolean conversion of the format: any nonzero 32-bit integer
/// means true. Applied identically everywhere a flag appears.
pub fn adabool(value: u32) -> (r: bool)
    ensures
        r == (value != 0),
{
    value != 0
}

/// A forward, non-seekable pass over the bytes of a save file.
pub struct Parser {
    data: Vec<u8>,
    pos: usize,
}

impl Parser {
    /// The input bytes this parser walks.
    pub closed spec fn bytes(&self) -> Seq<u8> {
        self.data@
    }

    /// The current cursor position.
    pub closed spec fn position(&self) -> int {
        self.pos as int
    }

    /// The cursor never leaves the input.
    pub open spec fn wf(&self) -> bool {
        0 <= self.position() <= self.bytes().len()
    }

    /// A parser positioned at the start of the given bytes.
    pub fn new(data: Vec<u8>) -> (r: Parser)
        ensures
            r.bytes() == data@,
            r.position() == 0,
            r.wf(),
    {
        Parser { data, pos: 0 }
    }

    /// Decodes the metadata header at the cursor and advances past it; on
    /// failure the cursor does not move.
    pub fn read_header(&mut self) -> (r: Result<SaveFileHeader, Error>)
        requires
            old(self).wf(),
        ensures
            final(self).bytes() == old(self).bytes(),
            final(self).wf(),
            match spec_read_header(old(self).bytes(), old(self).position()) {
                Ok(vp) => r matches Ok(h) && h@ == vp.0 && final(self).position() == vp.1,
                Err(k) => r matches Err(e) && kind_of(e) == k && final(self).position() == old(self).position(),
            },
    {
        match SaveFileHeader::read(&self.data, self.pos) {
            Ok((h, p)) => {
                self.pos = p;
                Ok(h)
            },
            Err(e) => Err(e),
        }
    }

    /// Decodes the next compressed chunk record. End of input exactly at a
    /// record boundary is not an error: it yields `None` and signals that
    /// the transport is complete. Any other failure leaves the cursor where
    /// it was.
    pub fn read_compressed_body_chunk(&mut self) -> (r: Result<
        Option<CompressedSaveFileBody>,
        Error,
    >)
        requires
            old(self).wf(),
        ensures
            final(self).bytes() == old(self).bytes(),
            final(self).wf(),
            old(self).position() == old(self).bytes().len() ==> (r matches Ok(c) && c is None
                && final(self).position() == old(self).position()),
            old(self).position() < old(self).bytes().len() ==> match spec_read_chunk(
                old(self).bytes(),
                old(self).position(),
            ) {
                Ok(vp) => r matches Ok(c) && (c matches Some(ch) && ch@ == vp.0) && final(self).position() == vp.1,
                Err(k) => r matches Err(e) && kind_of(e) == k && final(self).position() == old(self).position(),
            },
            (r matches Ok(c) && c is Some) ==> old(self).position() < final(self).position(),
    {
        if self.pos == self.data.len() {
            return Ok(None);
        }
        match CompressedSaveFileBody::read(&self.data, self.pos) {
            Ok((c, p)) => {
                self.pos = p;
                Ok(Some(c))
            },
            Err(e) => Err(e),
        }
    }

    /// Decodes the whole body: collects chunk records until the transport
    /// reports completion, reassembles them into the logical byte stream,
    /// and decodes the level tree from it. Every decoded level satisfies the
    /// header/object correlation.
    pub fn read_body(&mut self) -> (r: Result<SaveFileBody, Error>)
        requires
            old(self).wf(),
        ensures
            final(self).bytes() == old(self).bytes(),
            final(self).wf(),
            r matches Ok(b) ==> level_consistent(b.persistent_level),
            r matches Ok(b) ==> forall|i: int|
                0 <= i < b.sub_levels.0@.len() ==> level_consistent(
                    #[trigger] b.sub_levels.0@[i],
                ),
            match spec_read_chunks(old(self).bytes(), old(self).position()) {
                Err(k) => r matches Err(e) && kind_of(e) == k,
                Ok(chs) => match spec_reassemble(chs) {
                    Err(k) => r matches Err(e) && kind_of(e) == k,
                    Ok(b) => match spec_body_end(b, 0) {
                        Err(k) => r matches Err(e) && kind_of(e) == k,
                        Ok(_end) => r is Ok,
                    },
                },
            },
    {
        let mut chunk_list: Vec<CompressedSaveFileBody> = Vec::new();
        proof {
            assert(chunk_views(chunk_list@) =~= Seq::<ChunkView>::empty());
            if let Ok(rest) = spec_read_chunks(old(self).bytes(), self.position()) {
                assert(chunk_views(chunk_list@) + rest =~= rest);
            }
        }
        loop
            invariant
                self.wf(),
                self.bytes() == old(self).bytes(),
                match spec_read_chunks(old(self).bytes(), self.position()) {
                    Ok(rest) => spec_read_chunks(old(self).bytes(), old(self).position()) == Ok::<
                        Seq<ChunkView>,
                        ErrorKind,
                    >(chunk_views(chunk_list@) + rest),
                    Err(k) => spec_read_chunks(old(self).bytes(), old(self).position()) == Err::<
                        Seq<ChunkView>,
                        ErrorKind,
                    >(k),
                },
            ensures
                self.wf(),
                self.bytes() == old(self).bytes(),
                spec_read_chunks(old(self).bytes(), old(self).position()) == Ok::<
                    Seq<ChunkView>,
                    ErrorKind,
                >(chunk_views(chunk_list@)),
            decreases self.bytes().len() - self.position(),
        {
            let ghost old_list = chunk_list@;
            match self.read_compressed_body_chunk()? {
                Some(c) => {
                    proof {
                        assert(chunk_views(old_list.push(c)) =~= chunk_views(old_list).push(c@));
                        if let Ok(rest2) = spec_read_chunks(old(self).bytes(), self.position()) {
                            assert(chunk_views(old_list) + (seq![c@] + rest2) =~= chunk_views(
                                old_list,
                            ).push(c@) + rest2);
                        }
                    }
                    chunk_list.push(c);
                },
                None => {
                    proof {
                        assert(chunk_views(chunk_list@) + Seq::<ChunkView>::empty()
                            =~= chunk_views(chunk_list@));
                    }
                    break ;
                },
            }
        }
        let body_bytes = reassemble(&chunk_list)?;
        let (body, _consumed) = SaveFileBody::read(&body_bytes, 0)?;
        Ok(body)
    }
}

} // verus!
