//! Auxiliary save-data records: object reference and header records, the
//! transform, hash and text records, and the world-partition validation
//! tables kept as sized ordered maps.

use vstd::prelude::*;

use crate::bytes::{le32, read_bytes, read_i32, read_i64, read_i8, read_u32, sle32, sle64, sle8};
use crate::containers::{Array, SizedMap};
use crate::error::{kind_of, Error, ErrorKind};
use crate::objects::spec_object_ref_end;
use crate::strings::{spec_read_string, SaveString};

verus! {

/// Where a 64-bit count-prefixed blob ends, or why its decode fails.
pub open spec fn spec_blob_end(s: Seq<u8>, i: int) -> Result<int, ErrorKind> {
    if i + 8 > s.len() {
        Err(ErrorKind::Truncated)
    } else if sle64(s, i) < 0 {
        Err(ErrorKind::Mismatch)
    } else if i + 8 + sle64(s, i) > s.len() {
        Err(ErrorKind::Truncated)
    } else {
        Ok(i + 8 + sle64(s, i))
    }
}

/// Where `n` consecutive destroyed-actor references end, or why their
/// decode fails.
pub open spec fn spec_discs_end(s: Seq<u8>, i: int, n: int) -> Result<int, ErrorKind>
    decreases n,
{
    if n <= 0 {
        Ok(i)
    } else {
        match spec_object_ref_end(s, i) {
            Err(k) => Err(k),
            Ok(j) => spec_discs_end(s, j, n - 1),
        }
    }
}

/// Where a count-prefixed destroyed-actor reference sequence ends, or why
/// its decode fails.
pub open spec fn spec_disc_array_end(s: Seq<u8>, i: int) -> Result<int, ErrorKind> {
    if i + 4 > s.len() {
        Err(ErrorKind::Truncated)
    } else if sle32(s, i) < 0 {
        Err(ErrorKind::Mismatch)
    } else {
        spec_discs_end(s, i + 4, sle32(s, i))
    }
}

/// Where `n` consecutive name/hash map entries end, or why their decode
/// fails.
pub open spec fn spec_hash_entries_end(s: Seq<u8>, i: int, n: int) -> Result<int, ErrorKind>
    decreases n,
{
    if n <= 0 {
        Ok(i)
    } else {
        match spec_read_string(s, i) {
            Err(k) => Err(k),
            Ok(key) => if key.1 + 4 > s.len() {
                Err(ErrorKind::Truncated)
            } else {
                spec_hash_entries_end(s, key.1 + 4, n - 1)
            },
        }
    }
}

/// Where one grid validation record ends, or why its decode fails.
pub open spec fn spec_wp_grid_end(s: Seq<u8>, i: int) -> Result<int, ErrorKind> {
    if i + 12 > s.len() {
        Err(ErrorKind::Truncated)
    } else if sle32(s, i + 8) < 0 {
        Err(ErrorKind::Mismatch)
    } else {
        spec_hash_entries_end(s, i + 12, sle32(s, i + 8))
    }
}

/// Where `n` consecutive name/grid map entries end, or why their decode
/// fails.
pub open spec fn spec_grid_entries_end(s: Seq<u8>, i: int, n: int) -> Result<int, ErrorKind>
    decreases n,
{
    if n <= 0 {
        Ok(i)
    } else {
        match spec_read_string(s, i) {
            Err(k) => Err(k),
            Ok(key) => match spec_wp_grid_end(s, key.1) {
                Err(k) => Err(k),
                Ok(j) => spec_grid_entries_end(s, j, n - 1),
            },
        }
    }
}

/// Where the world-partition validation table ends, or why its decode
/// fails.
pub open spec fn spec_world_partition_end(s: Seq<u8>, i: int) -> Result<int, ErrorKind> {
    if i + 4 > s.len() {
        Err(ErrorKind::Truncated)
    } else if sle32(s, i) < 0 {
        Err(ErrorKind::Mismatch)
    } else {
        spec_grid_entries_end(s, i + 4, sle32(s, i))
    }
}

/// Where `n` consecutive level-name/destroyed-actor map entries end, or why
/// their decode fails.
pub open spec fn spec_actor_map_entries_end(s: Seq<u8>, i: int, n: int) -> Result<int, ErrorKind>
    decreases n,
{
    if n <= 0 {
        Ok(i)
    } else {
        match spec_read_string(s, i) {
            Err(k) => Err(k),
            Ok(key) => match spec_disc_array_end(s, key.1) {
                Err(k) => Err(k),
                Ok(j) => spec_actor_map_entries_end(s, j, n - 1),
            },
        }
    }
}

/// Where the persistent and runtime save data record ends, or why its
/// decode fails.
pub open spec fn spec_persistent_runtime_end(s: Seq<u8>, i: int) -> Result<int, ErrorKind> {
    match spec_blob_end(s, i) {
        Err(k) => Err(k),
        Ok(t) => match spec_blob_end(s, t) {
            Err(k) => Err(k),
            Ok(b) => if b + 4 > s.len() {
                Err(ErrorKind::Truncated)
            } else if sle32(s, b) < 0 {
                Err(ErrorKind::Mismatch)
            } else {
                spec_actor_map_entries_end(s, b + 4, sle32(s, b))
            },
        },
    }
}

/// Where the per-streaming-level save data record ends, or why its decode
/// fails.
pub open spec fn spec_streaming_level_end(s: Seq<u8>, i: int) -> Result<int, ErrorKind> {
    match spec_blob_end(s, i) {
        Err(k) => Err(k),
        Ok(t) => match spec_blob_end(s, t) {
            Err(k) => Err(k),
            Ok(b) => spec_disc_array_end(s, b),
        },
    }
}

/// A reference to an object by level and path name, as stored in the
/// auxiliary records.
#[derive(Debug)]
pub struct ObjectReferenceDisc {
    pub level_name: SaveString,
    pub path_name: SaveString,
}

impl ObjectReferenceDisc {
    /// Two length-prefixed strings: the level name, then the path name.
    pub fn read(data: &Vec<u8>, pos: usize) -> (r: Result<(ObjectReferenceDisc, usize), Error>)
        requires
            pos <= data@.len(),
        ensures
            r matches Ok(x) ==> pos < x.1 <= data@.len(),
            r matches Ok(x) ==> (spec_read_string(data@, pos as int) matches Ok(a)
                && x.0.level_name@ == a.0 && (spec_read_string(data@, a.1) matches Ok(b)
                && x.0.path_name@ == b.0 && x.1 == b.1)),
            match spec_object_ref_end(data@, pos as int) {
                Ok(end) => r matches Ok(x) && x.1 == end,
                Err(k) => r matches Err(e) && kind_of(e) == k,
            },
    {
        let (level_name, p) = SaveString::read(data, pos)?;
        let (path_name, p) = SaveString::read(data, p)?;
        Ok((ObjectReferenceDisc { level_name, path_name }, p))
    }
}

/// The common front of an object save header.
#[derive(Debug)]
pub struct ObjectBaseSaveHeader {
    pub class_name: SaveString,
    pub reference: ObjectReferenceDisc,
}

impl ObjectBaseSaveHeader {
    /// A class name string, then an object reference.
    pub fn read(data: &Vec<u8>, pos: usize) -> (r: Result<(ObjectBaseSaveHeader, usize), Error>)
        requires
            pos <= data@.len(),
        ensures
            r matches Ok(x) ==> pos < x.1 <= data@.len(),
            r matches Ok(x) ==> (spec_read_string(data@, pos as int) matches Ok(a)
                && x.0.class_name@ == a.0 && (spec_read_string(data@, a.1) matches Ok(b)
                && x.0.reference.level_name@ == b.0 && (spec_read_string(data@, b.1) matches Ok(
                c,
            ) && x.0.reference.path_name@ == c.0 && x.1 == c.1))),
            (spec_read_string(data@, pos as int) matches Ok(a) && (spec_read_string(data@, a.1)
                matches Ok(b) && spec_read_string(data@, b.1) is Ok)) ==> r is Ok,
    {
        let (class_name, p) = SaveString::read(data, pos)?;
        let (reference, p) = ObjectReferenceDisc::read(data, p)?;
        Ok((ObjectBaseSaveHeader { class_name, reference }, p))
    }
}

/// An object save header: the base header and an outer path name.
#[derive(Debug)]
pub struct ObjectSaveHeader {
    pub base_header: ObjectBaseSaveHeader,
    pub outer_path_name: SaveString,
}

impl ObjectSaveHeader {
    pub fn read(data: &Vec<u8>, pos: usize) -> (r: Result<(ObjectSaveHeader, usize), Error>)
        requires
            pos <= data@.len(),
        ensures
            r matches Ok(x) ==> pos < x.1 <= data@.len(),
            r matches Ok(x) ==> (spec_read_string(data@, pos as int) matches Ok(a)
                && x.0.base_header.class_name@ == a.0 && (spec_read_string(data@, a.1) matches Ok(
                b,
            ) && (spec_read_string(data@, b.1) matches Ok(c) && (spec_read_string(data@, c.1)
                matches Ok(d) && x.0.outer_path_name@ == d.0 && x.1 == d.1)))),
    {
        let (base_header, p) = ObjectBaseSaveHeader::read(data, pos)?;
        let (outer_path_name, p) = SaveString::read(data, p)?;
        Ok((ObjectSaveHeader { base_header, outer_path_name }, p))
    }
}

/// A transform: rotation quaternion, translation and scale, each component
/// kept as the raw little-endian bit pattern of its 32-bit float.
#[derive(Debug)]
pub struct Transform {
    pub rotation: Vec<u32>,
    pub translation: Vec<u32>,
    pub scale: Vec<u32>,
}

impl Transform {
    /// Ten consecutive 32-bit fields: four rotation, three translation,
    /// three scale components.
    pub fn read(data: &Vec<u8>, pos: usize) -> (r: Result<(Transform, usize), Error>)
        requires
            pos <= data@.len(),
        ensures
            pos + 40 <= data@.len() ==> (r matches Ok(x) && x.0.rotation@.len() == 4
                && x.0.translation@.len() == 3 && x.0.scale@.len() == 3 && x.1 == pos + 40),
            pos + 40 > data@.len() ==> (r matches Err(e) && e is TruncatedInput),
            r matches Ok(x) ==> (forall|j: int|
                0 <= j < 4 ==> x.0.rotation@[j] == le32(data@, pos + 4 * j)) && (forall|j: int|
                0 <= j < 3 ==> x.0.translation@[j] == le32(data@, pos + 16 + 4 * j)) && (forall|
                j: int,
            | 0 <= j < 3 ==> x.0.scale@[j] == le32(data@, pos + 28 + 4 * j)),
    {
        let mut rotation: Vec<u32> = Vec::new();
        let mut translation: Vec<u32> = Vec::new();
        let mut scale: Vec<u32> = Vec::new();
        let mut p: usize = pos;
        let mut i: usize = 0;
        while i < 4
            invariant
                p == pos + 4 * i,
                p <= data@.len(),
                i <= 4,
                rotation@.len() == i,
                forall|j: int| 0 <= j < i ==> rotation@[j] == le32(data@, pos + 4 * j),
            decreases 4 - i,
        {
            let (v, np) = read_u32(data, p)?;
            rotation.push(v);
            p = np;
            i = i + 1;
        }
        let mut i: usize = 0;
        while i < 3
            invariant
                p == pos + 16 + 4 * i,
                p <= data@.len(),
                i <= 3,
                rotation@.len() == 4,
                forall|j: int| 0 <= j < 4 ==> rotation@[j] == le32(data@, pos + 4 * j),
                translation@.len() == i,
                forall|j: int| 0 <= j < i ==> translation@[j] == le32(data@, pos + 16 + 4 * j),
            decreases 3 - i,
        {
            let (v, np) = read_u32(data, p)?;
            translation.push(v);
            p = np;
            i = i + 1;
        }
        let mut i: usize = 0;
        while i < 3
            invariant
                p == pos + 28 + 4 * i,
                p <= data@.len(),
                i <= 3,
                rotation@.len() == 4,
                forall|j: int| 0 <= j < 4 ==> rotation@[j] == le32(data@, pos + 4 * j),
                translation@.len() == 3,
                forall|j: int| 0 <= j < 3 ==> translation@[j] == le32(data@, pos + 16 + 4 * j),
                scale@.len() == i,
                forall|j: int| 0 <= j < i ==> scale@[j] == le32(data@, pos + 28 + 4 * j),
            decreases 3 - i,
        {
            let (v, np) = read_u32(data, p)?;
            scale.push(v);
            p = np;
            i = i + 1;
        }
        Ok((Transform { rotation, translation, scale }, p))
    }
}

/// An actor save header: the base header, a transform-needed flag, the
/// transform, and a placement flag.
#[derive(Debug)]
pub struct ActorSaveHeader {
    pub object_header: ObjectBaseSaveHeader,
    pub need_transform: bool,
    pub transform: Transform,
    pub was_placed_in_level: bool,
}

impl ActorSaveHeader {
    pub fn read(data: &Vec<u8>, pos: usize) -> (r: Result<(ActorSaveHeader, usize), Error>)
        requires
            pos <= data@.len(),
        ensures
            r matches Ok(x) ==> pos < x.1 <= data@.len(),
            r matches Ok(x) ==> (spec_read_string(data@, pos as int) matches Ok(a) && (
            spec_read_string(data@, a.1) matches Ok(b) && (spec_read_string(data@, b.1)
                matches Ok(c) && x.0.need_transform == (le32(data@, c.1) != 0)
                && x.0.was_placed_in_level == (le32(data@, c.1 + 44) != 0) && x.1 == c.1 + 48))),
    {
        let (object_header, p) = ObjectBaseSaveHeader::read(data, pos)?;
        let (nt_raw, p) = read_u32(data, p)?;
        let (transform, p) = Transform::read(data, p)?;
        let (wp_raw, p) = read_u32(data, p)?;
        Ok(
            (
                ActorSaveHeader {
                    object_header,
                    need_transform: crate::adabool(nt_raw),
                    transform,
                    was_placed_in_level: crate::adabool(wp_raw),
                },
                p,
            ),
        )
    }
}

/// A validity-tagged MD5 digest; sixteen zero bytes when absent.
#[derive(Debug)]
pub struct MD5Hash {
    pub is_valid: bool,
    pub bytes: Vec<u8>,
}

impl MD5Hash {
    /// A 32-bit validity flag, then sixteen digest bytes present only when
    /// the flag is set.
    pub fn read(data: &Vec<u8>, pos: usize) -> (r: Result<(MD5Hash, usize), Error>)
        requires
            pos <= data@.len(),
        ensures
            pos + 4 > data@.len() ==> (r matches Err(e) && e is TruncatedInput),
            r matches Ok(x) ==> x.0.bytes@.len() == 16,
            r matches Ok(x) ==> x.0.is_valid == (le32(data@, pos as int) != 0),
            pos + 4 <= data@.len() && le32(data@, pos as int) == 0 ==> (r matches Ok(x) && x.1
                == pos + 4 && (forall|j: int| 0 <= j < 16 ==> x.0.bytes@[j] == 0)),
            pos + 4 <= data@.len() && le32(data@, pos as int) != 0 ==> (if pos + 20 <= data@.len() {
                r matches Ok(x) && x.1 == pos + 20 && x.0.bytes@ == data@.subrange(
                    pos + 4,
                    pos + 20,
                )
            } else {
                r matches Err(e) && e is TruncatedInput
            }),
    {
        let (raw, p) = read_u32(data, pos)?;
        let is_valid = crate::adabool(raw);
        if is_valid {
            let (bytes, p2) = read_bytes(data, p, 16)?;
            Ok((MD5Hash { is_valid, bytes }, p2))
        } else {
            let mut bytes: Vec<u8> = Vec::new();
            let mut i: usize = 0;
            while i < 16
                invariant
                    i <= 16,
                    bytes@.len() == i,
                    forall|j: int| 0 <= j < i ==> bytes@[j] == 0,
                decreases 16 - i,
            {
                bytes.push(0u8);
                i = i + 1;
            }
            Ok((MD5Hash { is_valid, bytes }, p))
        }
    }
}

/// The history of a text record: either no history (with an optional
/// culture-invariant string) or a namespace/key/source triple.
#[derive(Debug)]
pub enum TextHistoryType {
    NoHistory { has_culture_invariant_string: bool, text_data: SaveString },
    Base { namespace: SaveString, key: SaveString, source_string: SaveString },
}

impl TextHistoryType {
    /// An 8-bit discriminant (-1 for no history, 0 for a base record)
    /// selects the record; any other value is a hard failure.
    pub fn read(data: &Vec<u8>, pos: usize) -> (r: Result<(TextHistoryType, usize), Error>)
        requires
            pos <= data@.len(),
        ensures
            r matches Ok(x) ==> pos < x.1 <= data@.len(),
            pos + 1 > data@.len() ==> (r matches Err(e) && e is TruncatedInput),
            pos + 1 <= data@.len() && sle8(data@, pos as int) != -1 && sle8(data@, pos as int)
                != 0 ==> (r matches Err(e) && e is SizeAssertionFailed),
            r matches Ok(x) ==> (sle8(data@, pos as int) == -1 ==> (x.0 matches
                TextHistoryType::NoHistory {
                    has_culture_invariant_string,
                    text_data,
                } && has_culture_invariant_string == (le32(data@, pos + 1) != 0) && (
            !has_culture_invariant_string ==> text_data@ is Empty && x.1 == pos + 5) && (
            has_culture_invariant_string ==> (spec_read_string(data@, pos + 5) matches Ok(tv)
                && text_data@ == tv.0 && x.1 == tv.1)))),
            r matches Ok(x) ==> (sle8(data@, pos as int) == 0 ==> (x.0 matches
                TextHistoryType::Base { namespace, key, source_string } && (spec_read_string(
                data@,
                pos + 1,
            ) matches Ok(a) && namespace@ == a.0 && (spec_read_string(data@, a.1) matches Ok(b)
                && key@ == b.0 && (spec_read_string(data@, b.1) matches Ok(c) && source_string@
                == c.0 && x.1 == c.1))))),
    {
        let (disc, p) = read_i8(data, pos)?;
        if disc == -1 {
            let (raw, p2) = read_u32(data, p)?;
            let has = crate::adabool(raw);
            if has {
                let (text_data, p3) = SaveString::read(data, p2)?;
                Ok(
                    (
                        TextHistoryType::NoHistory {
                            has_culture_invariant_string: has,
                            text_data,
                        },
                        p3,
                    ),
                )
            } else {
                Ok(
                    (
                        TextHistoryType::NoHistory {
                            has_culture_invariant_string: has,
                            text_data: SaveString::Empty,
                        },
                        p2,
                    ),
                )
            }
        } else if disc == 0 {
            let (namespace, p2) = SaveString::read(data, p)?;
            let (key, p3) = SaveString::read(data, p2)?;
            let (source_string, p4) = SaveString::read(data, p3)?;
            Ok((TextHistoryType::Base { namespace, key, source_string }, p4))
        } else {
            Err(Error::SizeAssertionFailed { offset: pos })
        }
    }
}

/// A text value: flags and its history record.
#[derive(Debug)]
pub struct Text {
    pub flags: u32,
    pub history_type: TextHistoryType,
}

/// Reads a 64-bit count-prefixed blob of raw bytes.
fn read_blob(data: &Vec<u8>, pos: usize) -> (r: Result<(Vec<u8>, usize), Error>)
    requires
        pos <= data@.len(),
    ensures
        r matches Ok(x) ==> pos < x.1 <= data@.len(),
        r matches Ok(x) ==> x.0@.len() == sle64(data@, pos as int),
        match spec_blob_end(data@, pos as int) {
            Ok(end) => r matches Ok(x) && x.1 == end,
            Err(k) => r matches Err(e) && kind_of(e) == k,
        },
{
    let (count, p) = read_i64(data, pos)?;
    if count < 0 {
        return Err(Error::LengthMismatch { offset: pos });
    }
    let rem: usize = data.len() - p;
    if (rem as u64) < (count as u64) {
        return Err(Error::TruncatedInput { offset: p });
    }
    let (bytes, p2) = read_bytes(data, p, count as usize)?;
    Ok((bytes, p2))
}

/// Reads a count-prefixed sequence of destroyed-actor references.
fn read_disc_array(data: &Vec<u8>, pos: usize) -> (r: Result<
    (Array<ObjectReferenceDisc>, usize),
    Error,
>)
    requires
        pos <= data@.len(),
    ensures
        r matches Ok(x) ==> pos < x.1 <= data@.len(),
        r matches Ok(x) ==> x.0.0@.len() == sle32(data@, pos as int),
        match spec_disc_array_end(data@, pos as int) {
            Ok(end) => r matches Ok(x) && x.1 == end,
            Err(k) => r matches Err(e) && kind_of(e) == k,
        },
{
    let (count, p) = read_i32(data, pos)?;
    if count < 0 {
        return Err(Error::LengthMismatch { offset: pos });
    }
    let n: usize = count as usize;
    let mut out: Vec<ObjectReferenceDisc> = Vec::new();
    let mut cur: usize = p;
    let ghost p0 = p as int;
    let mut i: usize = 0;
    while i < n
        invariant
            pos < cur <= data@.len(),
            i <= n,
            spec_disc_array_end(data@, pos as int) == spec_discs_end(data@, p0, n as int),
            spec_discs_end(data@, p0, n as int) == spec_discs_end(data@, cur as int, n - i),
            out@.len() == i,
        decreases n - i,
    {
        let (x, np) = ObjectReferenceDisc::read(data, cur)?;
        out.push(x);
        cur = np;
        i = i + 1;
    }
    Ok((Array(out), cur))
}

/// Per-streaming-level save data: two raw blobs and the destroyed actors.
#[derive(Debug)]
pub struct PerStreamingLevelSaveData {
    toc_blob: Array<u8>,
    data_blob: Array<u8>,
    destroyed_actors: Array<ObjectReferenceDisc>,
}

impl PerStreamingLevelSaveData {
    pub fn read(data: &Vec<u8>, pos: usize) -> (r: Result<
        (PerStreamingLevelSaveData, usize),
        Error,
    >)
        requires
            pos <= data@.len(),
        ensures
            r matches Ok(x) ==> pos < x.1 <= data@.len(),
            match spec_streaming_level_end(data@, pos as int) {
                Ok(end) => r matches Ok(x) && x.1 == end,
                Err(k) => r matches Err(e) && kind_of(e) == k,
            },
    {
        let (toc, p) = read_blob(data, pos)?;
        let (blob, p) = read_blob(data, p)?;
        let (destroyed_actors, p) = read_disc_array(data, p)?;
        Ok(
            (
                PerStreamingLevelSaveData {
                    toc_blob: Array(toc),
                    data_blob: Array(blob),
                    destroyed_actors,
                },
                p,
            ),
        )
    }
}

/// Persistent and runtime save data: two raw blobs and a sized ordered map
/// from level name to destroyed actors.
#[derive(Debug)]
pub struct PersistentAndRuntimeSaveData {
    pub toc_blob: Array<u8>,
    pub data_blob: Array<u8>,
    pub level_to_destroyed_actors: SizedMap<SaveString, Array<ObjectReferenceDisc>>,
}

impl PersistentAndRuntimeSaveData {
    #[verifier::spinoff_prover]
    #[verifier::rlimit(100)]
    pub fn read(data: &Vec<u8>, pos: usize) -> (r: Result<
        (PersistentAndRuntimeSaveData, usize),
        Error,
    >)
        requires
            pos <= data@.len(),
        ensures
            r matches Ok(x) ==> pos < x.1 <= data@.len(),
            match spec_persistent_runtime_end(data@, pos as int) {
                Ok(end) => r matches Ok(x) && x.1 == end,
                Err(k) => r matches Err(e) && kind_of(e) == k,
            },
    {
        let (toc, p) = read_blob(data, pos)?;
        let (blob, p) = read_blob(data, p)?;
        let (count, p) = read_i32(data, p)?;
        if count < 0 {
            return Err(Error::LengthMismatch { offset: p });
        }
        let n: usize = count as usize;
        let mut map: SizedMap<SaveString, Array<ObjectReferenceDisc>> = SizedMap::new();
        let mut cur: usize = p;
        let ghost p0 = p as int;
        let mut i: usize = 0;
        while i < n
            invariant
                pos < cur <= data@.len(),
                i <= n,
                spec_persistent_runtime_end(data@, pos as int) == spec_actor_map_entries_end(
                    data@,
                    p0,
                    n as int,
                ),
                spec_actor_map_entries_end(data@, p0, n as int) == spec_actor_map_entries_end(
                    data@,
                    cur as int,
                    n - i,
                ),
                map.0@.len() == i,
            decreases n - i,
        {
            let (key, np) = SaveString::read(data, cur)?;
            let (value, np2) = read_disc_array(data, np)?;
            map.insert(key, value);
            cur = np2;
            i = i + 1;
        }
        Ok(
            (
                PersistentAndRuntimeSaveData {
                    toc_blob: Array(toc),
                    data_blob: Array(blob),
                    level_to_destroyed_actors: map,
                },
                cur,
            ),
        )
    }
}

/// Unresolved world save data: the destroyed actors alone.
#[derive(Debug)]
pub struct UnresolvedWorldSaveData {
    pub destroyed_actors: Array<ObjectReferenceDisc>,
}

impl UnresolvedWorldSaveData {
    pub fn read(data: &Vec<u8>, pos: usize) -> (r: Result<(UnresolvedWorldSaveData, usize), Error>)
        requires
            pos <= data@.len(),
        ensures
            r matches Ok(x) ==> pos < x.1 <= data@.len(),
            match spec_disc_array_end(data@, pos as int) {
                Ok(end) => r matches Ok(x) && x.1 == end,
                Err(k) => r matches Err(e) && kind_of(e) == k,
            },
    {
        let (destroyed_actors, p) = read_disc_array(data, pos)?;
        Ok((UnresolvedWorldSaveData { destroyed_actors }, p))
    }
}

/// Validation data for one world-partition grid: a cell size, a grid hash,
/// and a sized ordered map from cell name to cell hash.
#[derive(Debug)]
pub struct WPGridValidationData {
    pub cell_size: i32,
    pub grid_hash: u32,
    pub cell_hashes: SizedMap<SaveString, u32>,
}

impl WPGridValidationData {
    /// The cell-hash map keeps its entries in read order, duplicate keys
    /// included: its length always equals the declared count.
    pub fn read(data: &Vec<u8>, pos: usize) -> (r: Result<(WPGridValidationData, usize), Error>)
        requires
            pos <= data@.len(),
        ensures
            r matches Ok(x) ==> pos < x.1 <= data@.len(),
            r matches Ok(x) ==> x.0.cell_hashes.0@.len() == sle32(data@, pos + 8),
            match spec_wp_grid_end(data@, pos as int) {
                Ok(end) => r matches Ok(x) && x.1 == end,
                Err(k) => r matches Err(e) && kind_of(e) == k,
            },
    {
        let (cell_size, p) = read_i32(data, pos)?;
        let (grid_hash, p) = read_u32(data, p)?;
        let (count, p) = read_i32(data, p)?;
        if count < 0 {
            return Err(Error::LengthMismatch { offset: p });
        }
        let n: usize = count as usize;
        let mut cell_hashes: SizedMap<SaveString, u32> = SizedMap::new();
        let mut cur: usize = p;
        let ghost p0 = p as int;
        let mut i: usize = 0;
        while i < n
            invariant
                pos < cur <= data@.len(),
                i <= n,
                spec_wp_grid_end(data@, pos as int) == spec_hash_entries_end(
                    data@,
                    p0,
                    n as int,
                ),
                spec_hash_entries_end(data@, p0, n as int) == spec_hash_entries_end(
                    data@,
                    cur as int,
                    n - i,
                ),
                cell_hashes.0@.len() == i,
            decreases n - i,
        {
            let (key, np) = SaveString::read(data, cur)?;
            let (value, np2) = read_u32(data, np)?;
            cell_hashes.insert(key, value);
            cur = np2;
            i = i + 1;
        }
        Ok((WPGridValidationData { cell_size, grid_hash, cell_hashes }, cur))
    }
}

/// Validation data for the whole world partition: a sized ordered map from
/// grid name to grid validation data.
#[derive(Debug)]
pub struct WorldPartitionValidationData {
    pub grids: SizedMap<SaveString, WPGridValidationData>,
}

impl WorldPartitionValidationData {
    /// The grid map keeps its entries in read order, duplicate keys
    /// included: its length always equals the declared count.
    pub fn read(data: &Vec<u8>, pos: usize) -> (r: Result<
        (WorldPartitionValidationData, usize),
        Error,
    >)
        requires
            pos <= data@.len(),
        ensures
            r matches Ok(x) ==> pos < x.1 <= data@.len(),
            r matches Ok(x) ==> x.0.grids.0@.len() == sle32(data@, pos as int),
            match spec_world_partition_end(data@, pos as int) {
                Ok(end) => r matches Ok(x) && x.1 == end,
                Err(k) => r matches Err(e) && kind_of(e) == k,
            },
    {
        let (count, p) = read_i32(data, pos)?;
        if count < 0 {
            return Err(Error::LengthMismatch { offset: pos });
        }
        let n: usize = count as usize;
        let mut grids: SizedMap<SaveString, WPGridValidationData> = SizedMap::new();
        let mut cur: usize = p;
        let ghost p0 = p as int;
        let mut i: usize = 0;
        while i < n
            invariant
                pos < cur <= data@.len(),
                i <= n,
                spec_world_partition_end(data@, pos as int) == spec_grid_entries_end(
                    data@,
                    p0,
                    n as int,
                ),
                spec_grid_entries_end(data@, p0, n as int) == spec_grid_entries_end(
                    data@,
                    cur as int,
                    n - i,
                ),
                grids.0@.len() == i,
            decreases n - i,
        {
            let (key, np) = SaveString::read(data, cur)?;
            let (value, np2) = WPGridValidationData::read(data, np)?;
            grids.insert(key, value);
            cur = np2;
            i = i + 1;
        }
        Ok((WorldPartitionValidationData { grids }, cur))
    }
}

} // verus!
