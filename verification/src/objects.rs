//! The object grammar: a level holds object headers (tagged Actor or
//! Component), collectable references, and an object list decoded in a
//! second pass over the body stream. The stream carries no discriminant of
//! its own for objects: the Nth header's variant forces the Nth object's
//! variant, and the two runs are correlated only by ordinal position.

use vstd::prelude::*;

use crate::bytes::{read_bytes, read_i32, read_i64, skip, sle32, sle64};
use crate::containers::Array;
use crate::error::{kind_of, Error, ErrorKind};
use crate::property::{spec_property_list_scan, PropertyList};
use crate::strings::{spec_read_string, SaveString, StringView};

verus! {

/// Where an object reference (two strings) ends, or why its decode fails.
pub open spec fn spec_object_ref_end(s: Seq<u8>, i: int) -> Result<int, ErrorKind> {
    match spec_read_string(s, i) {
        Err(k) => Err(k),
        Ok(a) => match spec_read_string(s, a.1) {
            Ok(b) => Ok(b.1),
            Err(k) => Err(k),
        },
    }
}

/// Where `n` consecutive object references end, or why their decode fails.
pub open spec fn spec_refs_end(s: Seq<u8>, i: int, n: int) -> Result<int, ErrorKind>
    decreases n,
{
    if n <= 0 {
        Ok(i)
    } else {
        match spec_object_ref_end(s, i) {
            Err(k) => Err(k),
            Ok(j) => spec_refs_end(s, j, n - 1),
        }
    }
}

/// Where a count-prefixed object reference sequence ends, or why its decode
/// fails.
#[verifier::opaque]
pub open spec fn spec_ref_array_end(s: Seq<u8>, i: int) -> Result<int, ErrorKind> {
    if i + 4 > s.len() {
        Err(ErrorKind::Truncated)
    } else if sle32(s, i) < 0 {
        Err(ErrorKind::Mismatch)
    } else {
        spec_refs_end(s, i + 4, sle32(s, i))
    }
}

/// Where an actor header record (after its discriminant) ends, or why its
/// decode fails.
pub open spec fn spec_actor_header_end(s: Seq<u8>, i: int) -> Result<int, ErrorKind> {
    match spec_read_string(s, i) {
        Err(k) => Err(k),
        Ok(a) => match spec_read_string(s, a.1) {
            Err(k) => Err(k),
            Ok(b) => match spec_read_string(s, b.1) {
                Err(k) => Err(k),
                Ok(c) => if c.1 + 48 <= s.len() {
                    Ok(c.1 + 48)
                } else {
                    Err(ErrorKind::Truncated)
                },
            },
        },
    }
}

/// Where a component header record (after its discriminant) ends, or why
/// its decode fails.
pub open spec fn spec_component_header_end(s: Seq<u8>, i: int) -> Result<int, ErrorKind> {
    match spec_read_string(s, i) {
        Err(k) => Err(k),
        Ok(a) => match spec_read_string(s, a.1) {
            Err(k) => Err(k),
            Ok(b) => match spec_read_string(s, b.1) {
                Err(k) => Err(k),
                Ok(c) => match spec_read_string(s, c.1) {
                    Ok(d) => Ok(d.1),
                    Err(k) => Err(k),
                },
            },
        },
    }
}

/// Where one object header (discriminant plus record) ends, or why its
/// decode fails: a discriminant other than 1 or 0 is a bad constant.
pub open spec fn spec_object_header_end(s: Seq<u8>, i: int) -> Result<int, ErrorKind> {
    if i + 4 > s.len() {
        Err(ErrorKind::Truncated)
    } else if sle32(s, i) == 1 {
        spec_actor_header_end(s, i + 4)
    } else if sle32(s, i) == 0 {
        spec_component_header_end(s, i + 4)
    } else {
        Err(ErrorKind::BadConstant)
    }
}

/// The header variants of `n` consecutive object headers, with the position
/// after them, or why their decode fails.
#[verifier::opaque]
pub open spec fn spec_header_kinds(s: Seq<u8>, i: int, n: int) -> Result<
    (Seq<ObjectType>, int),
    ErrorKind,
>
    decreases n,
{
    if n <= 0 {
        Ok((Seq::empty(), i))
    } else {
        match spec_object_header_end(s, i) {
            Err(k) => Err(k),
            Ok(j) => match spec_header_kinds(s, j, n - 1) {
                Err(k) => Err(k),
                Ok((ks, e)) => Ok(
                    (
                        seq![
                            if sle32(s, i) == 1 {
                                ObjectType::Actor
                            } else {
                                ObjectType::Component
                            },
                        ] + ks,
                        e,
                    ),
                ),
            },
        }
    }
}

/// Where an actor object body ends, or why its decode fails.
pub open spec fn spec_actor_object_end(s: Seq<u8>, i: int) -> Result<int, ErrorKind> {
    if i + 4 > s.len() {
        Err(ErrorKind::Truncated)
    } else {
        match spec_read_string(s, i + 4) {
            Err(k) => Err(k),
            Ok(a) => match spec_read_string(s, a.1) {
                Err(k) => Err(k),
                Ok(b) => match spec_ref_array_end(s, b.1) {
                    Err(k) => Err(k),
                    Ok(c) => match spec_property_list_scan(s, c) {
                        Err(k) => Err(k),
                        Ok(nv) => if nv.1 + 16 <= s.len() {
                            Ok(nv.1 + 16)
                        } else {
                            Err(ErrorKind::Truncated)
                        },
                    },
                },
            },
        }
    }
}

/// Where a component object body ends, or why its decode fails.
pub open spec fn spec_component_object_end(s: Seq<u8>, i: int) -> Result<int, ErrorKind> {
    if i + 4 > s.len() {
        Err(ErrorKind::Truncated)
    } else {
        match spec_property_list_scan(s, i + 4) {
            Err(k) => Err(k),
            Ok(nv) => if nv.1 + 16 <= s.len() {
                Ok(nv.1 + 16)
            } else {
                Err(ErrorKind::Truncated)
            },
        }
    }
}

/// Where the object bodies driven by a header-variant sequence end, or why
/// their decode fails: the Nth variant selects the Nth body's shape.
#[verifier::opaque]
pub open spec fn spec_objects_end(s: Seq<u8>, i: int, kinds: Seq<ObjectType>) -> Result<
    int,
    ErrorKind,
>
    decreases kinds.len(),
{
    if kinds.len() == 0 {
        Ok(i)
    } else {
        let e = if kinds[0] is Actor {
            spec_actor_object_end(s, i)
        } else {
            spec_component_object_end(s, i)
        };
        match e {
            Err(k) => Err(k),
            Ok(j) => spec_objects_end(s, j, kinds.drop_first()),
        }
    }
}

/// The header variants of a header list.
pub open spec fn header_kinds_of(headers: Seq<ObjectHeader>) -> Seq<ObjectType> {
    headers.map_values(|h: ObjectHeader| h.object_type())
}

/// The front of a level: the optional sublevel name, the advisory size, and
/// the header run; yields the header variants and the position after them.
#[verifier::opaque]
pub open spec fn spec_level_front(s: Seq<u8>, i: int, is_sublevel: bool) -> Result<
    (Seq<ObjectType>, int),
    ErrorKind,
> {
    let start = if is_sublevel {
        spec_read_string(s, i)
    } else {
        Ok((StringView::Empty, i))
    };
    match start {
        Err(k) => Err(k),
        Ok((_name, s0)) => if s0 + 8 > s.len() {
            Err(ErrorKind::Truncated)
        } else if sle32(s, s0 + 4) < 0 {
            Err(ErrorKind::Mismatch)
        } else {
            spec_header_kinds(s, s0 + 8, sle32(s, s0 + 4))
        },
    }
}

/// Where one level ends, or why its decode fails: the declared object count
/// must equal the header count, else the parse would desynchronize.
#[verifier::opaque]
pub open spec fn spec_level_end(s: Seq<u8>, i: int, is_sublevel: bool) -> Result<int, ErrorKind> {
    match spec_level_front(s, i, is_sublevel) {
        Err(k) => Err(k),
        Ok((kinds, h_end)) => match spec_ref_array_end(s, h_end) {
            Err(k) => Err(k),
            Ok(c_end) => if c_end + 8 > s.len() {
                Err(ErrorKind::Truncated)
            } else if sle32(s, c_end + 4) < 0 || sle32(s, c_end + 4) != kinds.len() {
                Err(ErrorKind::Mismatch)
            } else {
                match spec_objects_end(s, c_end + 8, kinds) {
                    Err(k) => Err(k),
                    Ok(o_end) => spec_ref_array_end(s, o_end),
                }
            },
        },
    }
}

/// Where `n` consecutive sublevels end, or why their decode fails.
pub open spec fn spec_levels_end(s: Seq<u8>, i: int, n: int) -> Result<int, ErrorKind>
    decreases n,
{
    if n <= 0 {
        Ok(i)
    } else {
        match spec_level_end(s, i, true) {
            Err(k) => Err(k),
            Ok(j) => spec_levels_end(s, j, n - 1),
        }
    }
}

/// Where the whole body stream ends, or why its decode fails: a declared
/// size, the sublevels, the persistent level, the trailing references.
#[verifier::opaque]
pub open spec fn spec_body_end(s: Seq<u8>, i: int) -> Result<int, ErrorKind> {
    if i + 12 > s.len() {
        Err(ErrorKind::Truncated)
    } else if sle32(s, i + 8) < 0 {
        Err(ErrorKind::Mismatch)
    } else {
        match spec_levels_end(s, i + 12, sle32(s, i + 8)) {
            Err(k) => Err(k),
            Ok(l_end) => match spec_level_end(s, l_end, false) {
                Err(k) => Err(k),
                Ok(p_end) => spec_ref_array_end(s, p_end),
            },
        }
    }
}

/// The runtime variant of an object, fixed by its header.
#[derive(Debug, Clone, Copy, PartialEq, Eq, Structural)]
pub enum ObjectType {
    Actor,
    Component,
}

/// A reference to an object by level and path name.
#[derive(Debug)]
pub struct ObjectReference {
    pub level_name: SaveString,
    pub path_name: SaveString,
}

impl ObjectReference {
    /// Two length-prefixed strings: the level name, then the path name.
    pub fn read(data: &Vec<u8>, pos: usize) -> (r: Result<(ObjectReference, usize), Error>)
        requires
            pos <= data@.len(),
        ensures
            r matches Ok(x) ==> pos < x.1 <= data@.len(),
            r matches Ok(x) ==> (spec_read_string(data@, pos as int) matches Ok(a)
                && x.0.level_name@ == a.0 && (spec_read_string(data@, a.1) matches Ok(b)
                && x.0.path_name@ == b.0 && x.1 == b.1)),
            match spec_object_ref_end(data@, pos as int) {
                Ok(end) => r matches Ok(x) && x.1 == end,
                Err(k) => r matches Err(e) && kind_of(e) == k,
            },
    {
        let (level_name, p) = SaveString::read(data, pos)?;
        let (path_name, p) = SaveString::read(data, p)?;
        Ok((ObjectReference { level_name, path_name }, p))
    }
}

/// The header of an actor object. The rotation, position and scale fields
/// are raw little-endian bit patterns of 32-bit floats, preserved without
/// interpretation.
#[derive(Debug)]
pub struct ActorHeader {
    pub type_path: SaveString,
    pub root_object: SaveString,
    pub instance_name: SaveString,
    pub need_transform: i32,
    pub rotation_x: u32,
    pub rotation_y: u32,
    pub rotation_z: u32,
    pub rotation_w: u32,
    pub position_x: u32,
    pub position_y: u32,
    pub position_z: u32,
    pub scale_x: u32,
    pub scale_y: u32,
    pub scale_z: u32,
    pub was_placed_in_level: i32,
}

impl ActorHeader {
    /// Three path strings, a transform-needed flag, the transform as ten
    /// raw 32-bit fields, and a placement flag.
    pub fn read(data: &Vec<u8>, pos: usize) -> (r: Result<(ActorHeader, usize), Error>)
        requires
            pos <= data@.len(),
        ensures
            r matches Ok(x) ==> pos < x.1 <= data@.len(),
            r matches Ok(x) ==> (spec_read_string(data@, pos as int) matches Ok(a)
                && x.0.type_path@ == a.0 && (spec_read_string(data@, a.1) matches Ok(b)
                && x.0.root_object@ == b.0 && (spec_read_string(data@, b.1) matches Ok(c)
                && x.0.instance_name@ == c.0 && x.0.need_transform == sle32(data@, c.1)
                && x.0.rotation_x == crate::bytes::le32(data@, c.1 + 4) && x.0.rotation_y
                == crate::bytes::le32(data@, c.1 + 8) && x.0.rotation_z == crate::bytes::le32(
                data@,
                c.1 + 12,
            ) && x.0.rotation_w == crate::bytes::le32(data@, c.1 + 16) && x.0.position_x
                == crate::bytes::le32(data@, c.1 + 20) && x.0.position_y == crate::bytes::le32(
                data@,
                c.1 + 24,
            ) && x.0.position_z == crate::bytes::le32(data@, c.1 + 28) && x.0.scale_x
                == crate::bytes::le32(data@, c.1 + 32) && x.0.scale_y == crate::bytes::le32(
                data@,
                c.1 + 36,
            ) && x.0.scale_z == crate::bytes::le32(data@, c.1 + 40) && x.0.was_placed_in_level
                == sle32(data@, c.1 + 44) && x.1 == c.1 + 48))),
            match spec_actor_header_end(data@, pos as int) {
                Ok(end) => r matches Ok(x) && x.1 == end,
                Err(k) => r matches Err(e) && kind_of(e) == k,
            },
    {
        let (type_path, p) = SaveString::read(data, pos)?;
        let (root_object, p) = SaveString::read(data, p)?;
        let (instance_name, p) = SaveString::read(data, p)?;
        let (need_transform, p) = read_i32(data, p)?;
        let (rotation_x, p) = crate::bytes::read_u32(data, p)?;
        let (rotation_y, p) = crate::bytes::read_u32(data, p)?;
        let (rotation_z, p) = crate::bytes::read_u32(data, p)?;
        let (rotation_w, p) = crate::bytes::read_u32(data, p)?;
        let (position_x, p) = crate::bytes::read_u32(data, p)?;
        let (position_y, p) = crate::bytes::read_u32(data, p)?;
        let (position_z, p) = crate::bytes::read_u32(data, p)?;
        let (scale_x, p) = crate::bytes::read_u32(data, p)?;
        let (scale_y, p) = crate::bytes::read_u32(data, p)?;
        let (scale_z, p) = crate::bytes::read_u32(data, p)?;
        let (was_placed_in_level, p) = read_i32(data, p)?;
        Ok(
            (
                ActorHeader {
                    type_path,
                    root_object,
                    instance_name,
                    need_transform,
                    rotation_x,
                    rotation_y,
                    rotation_z,
                    rotation_w,
                    position_x,
                    position_y,
                    position_z,
                    scale_x,
                    scale_y,
                    scale_z,
                    was_placed_in_level,
                },
                p,
            ),
        )
    }
}

/// The header of a component object.
#[derive(Debug)]
pub struct ComponentHeader {
    pub type_path: SaveString,
    pub root_object: SaveString,
    pub instance_name: SaveString,
    pub parent_actor_name: SaveString,
}

impl ComponentHeader {
    /// Four path strings.
    pub fn read(data: &Vec<u8>, pos: usize) -> (r: Result<(ComponentHeader, usize), Error>)
        requires
            pos <= data@.len(),
        ensures
            r matches Ok(x) ==> pos < x.1 <= data@.len(),
            r matches Ok(x) ==> (spec_read_string(data@, pos as int) matches Ok(a)
                && x.0.type_path@ == a.0 && (spec_read_string(data@, a.1) matches Ok(b)
                && x.0.root_object@ == b.0 && (spec_read_string(data@, b.1) matches Ok(c)
                && x.0.instance_name@ == c.0 && (spec_read_string(data@, c.1) matches Ok(d)
                && x.0.parent_actor_name@ == d.0 && x.1 == d.1)))),
            match spec_component_header_end(data@, pos as int) {
                Ok(end) => r matches Ok(x) && x.1 == end,
                Err(k) => r matches Err(e) && kind_of(e) == k,
            },
    {
        let (type_path, p) = SaveString::read(data, pos)?;
        let (root_object, p) = SaveString::read(data, p)?;
        let (instance_name, p) = SaveString::read(data, p)?;
        let (parent_actor_name, p) = SaveString::read(data, p)?;
        Ok((ComponentHeader { type_path, root_object, instance_name, parent_actor_name }, p))
    }
}

/// An object header: a 32-bit discriminant (1 for Actor, 0 for Component)
/// followed by the corresponding fixed-field record.
#[derive(Debug)]
pub enum ObjectHeader {
    Actor(ActorHeader),
    Component(ComponentHeader),
}

impl ObjectHeader {
    /// The variant this header forces on the object at the same ordinal
    /// position.
    pub open spec fn object_type(&self) -> ObjectType {
        match self {
            ObjectHeader::Actor(_) => ObjectType::Actor,
            ObjectHeader::Component(_) => ObjectType::Component,
        }
    }

    /// A 32-bit discriminant selects the header record; any value other
    /// than 1 or 0 is a hard failure.
    pub fn read(data: &Vec<u8>, pos: usize) -> (r: Result<(ObjectHeader, usize), Error>)
        requires
            pos <= data@.len(),
        ensures
            r matches Ok(x) ==> pos < x.1 <= data@.len(),
            r matches Ok(x) ==> (sle32(data@, pos as int) == 1 ==> x.0 is Actor),
            r matches Ok(x) ==> (sle32(data@, pos as int) == 0 ==> x.0 is Component),
            match spec_object_header_end(data@, pos as int) {
                Ok(end) => r matches Ok(x) && x.1 == end,
                Err(k) => r matches Err(e) && kind_of(e) == k,
            },
    {
        let (disc, p) = read_i32(data, pos)?;
        if disc == 1 {
            let (h, p2) = ActorHeader::read(data, p)?;
            Ok((ObjectHeader::Actor(h), p2))
        } else if disc == 0 {
            let (h, p2) = ComponentHeader::read(data, p)?;
            Ok((ObjectHeader::Component(h), p2))
        } else {
            Err(Error::SizeAssertionFailed { offset: pos })
        }
    }
}

/// The body of an actor object.
#[derive(Debug)]
pub struct ActorObject {
    pub size: i32,
    pub parent_object_root: SaveString,
    pub parent_object_name: SaveString,
    pub components: Array<ObjectReference>,
    pub properties: PropertyList,
    pub trailing: Vec<u8>,
}

impl ActorObject {
    /// Size, parent strings, a count-prefixed component reference list, the
    /// property list, and a fixed 16-byte trailer kept opaque.
    pub fn read(data: &Vec<u8>, pos: usize) -> (r: Result<(ActorObject, usize), Error>)
        requires
            pos <= data@.len(),
        ensures
            r matches Ok(x) ==> pos < x.1 <= data@.len(),
            r matches Ok(x) ==> x.0.trailing@.len() == 16,
            match spec_actor_object_end(data@, pos as int) {
                Ok(end) => r matches Ok(x) && x.1 == end,
                Err(k) => r matches Err(e) && kind_of(e) == k,
            },
    {
        let (size, p) = read_i32(data, pos)?;
        let (parent_object_root, p) = SaveString::read(data, p)?;
        let (parent_object_name, p) = SaveString::read(data, p)?;
        let (components, p) = read_reference_array(data, p)?;
        let (properties, p) = PropertyList::read(data, p)?;
        let (trailing, p) = read_bytes(data, p, 16)?;
        Ok(
            (
                ActorObject {
                    size,
                    parent_object_root,
                    parent_object_name,
                    components,
                    properties,
                    trailing,
                },
                p,
            ),
        )
    }
}

/// The body of a component object.
#[derive(Debug)]
pub struct ComponentObject {
    pub size: i32,
    pub properties: PropertyList,
    pub trailing: Vec<u8>,
}

impl ComponentObject {
    /// Size, the property list, and a fixed 16-byte trailer kept opaque.
    pub fn read(data: &Vec<u8>, pos: usize) -> (r: Result<(ComponentObject, usize), Error>)
        requires
            pos <= data@.len(),
        ensures
            r matches Ok(x) ==> pos < x.1 <= data@.len(),
            r matches Ok(x) ==> x.0.trailing@.len() == 16,
            match spec_component_object_end(data@, pos as int) {
                Ok(end) => r matches Ok(x) && x.1 == end,
                Err(k) => r matches Err(e) && kind_of(e) == k,
            },
    {
        let (size, p) = read_i32(data, pos)?;
        let (properties, p) = PropertyList::read(data, p)?;
        let (trailing, p) = read_bytes(data, p, 16)?;
        Ok((ComponentObject { size, properties, trailing }, p))
    }
}

/// An object body; the variant is forced by the header at the same ordinal
/// position, not by anything in the object bytes themselves.
#[derive(Debug)]
pub enum Object {
    Actor(ActorObject),
    Component(ComponentObject),
}

impl Object {
    /// The runtime variant of this object.
    pub open spec fn object_type(&self) -> ObjectType {
        match self {
            Object::Actor(_) => ObjectType::Actor,
            Object::Component(_) => ObjectType::Component,
        }
    }
}

/// Reads a count-prefixed sequence of object references.
pub fn read_reference_array(data: &Vec<u8>, pos: usize) -> (r: Result<
    (Array<ObjectReference>, usize),
    Error,
>)
    requires
        pos <= data@.len(),
    ensures
        r matches Ok(x) ==> pos < x.1 <= data@.len(),
        r matches Ok(x) ==> x.0.0@.len() == sle32(data@, pos as int),
        match spec_ref_array_end(data@, pos as int) {
            Ok(end) => r matches Ok(x) && x.1 == end,
            Err(k) => r matches Err(e) && kind_of(e) == k,
        },
{
    proof {
        reveal(spec_ref_array_end);
    }
    let (count, p) = read_i32(data, pos)?;
    if count < 0 {
        return Err(Error::LengthMismatch { offset: pos });
    }
    let n: usize = count as usize;
    let mut out: Vec<ObjectReference> = Vec::new();
    let mut cur: usize = p;
    let ghost p0 = p as int;
    let mut i: usize = 0;
    while i < n
        invariant
            pos < cur <= data@.len(),
            i <= n,
            spec_ref_array_end(data@, pos as int) == spec_refs_end(data@, p0, n as int),
            spec_refs_end(data@, p0, n as int) == spec_refs_end(data@, cur as int, n - i),
            out@.len() == i,
        decreases n - i,
    {
        let (x, np) = ObjectReference::read(data, cur)?;
        out.push(x);
        cur = np;
        i = i + 1;
    }
    Ok((Array(out), cur))
}

/// Decodes the object body stream by walking the header list in order: the
/// Nth header's variant selects the shape of the Nth object. A successful
/// decode consumes exactly one object per header, each of the variant its
/// header dictates.
#[verifier::spinoff_prover]
#[verifier::rlimit(100)]
pub fn parse_objects(data: &Vec<u8>, pos: usize, headers: &Vec<ObjectHeader>) -> (r: Result<
    (Vec<Object>, usize),
    Error,
>)
    requires
        pos <= data@.len(),
    ensures
        r matches Ok(x) ==> pos <= x.1 <= data@.len(),
        r matches Ok(x) ==> x.0@.len() == headers@.len(),
        r matches Ok(x) ==> forall|i: int|
            0 <= i < headers@.len() ==> x.0@[i].object_type() == headers@[i].object_type(),
        match spec_objects_end(data@, pos as int, header_kinds_of(headers@)) {
            Ok(end) => r matches Ok(x) && x.1 == end,
            Err(k) => r matches Err(e) && kind_of(e) == k,
        },
{
    let ghost kinds = header_kinds_of(headers@);
    let mut objects: Vec<Object> = Vec::new();
    let mut cur: usize = pos;
    let n: usize = headers.len();
    let mut i: usize = 0;
    proof {
        reveal(spec_objects_end);
        assert(kinds.skip(0) =~= kinds);
    }
    while i < n
        invariant
            n == headers@.len(),
            kinds == header_kinds_of(headers@),
            kinds.len() == n,
            pos <= cur <= data@.len(),
            i <= n,
            spec_objects_end(data@, pos as int, kinds) == spec_objects_end(
                data@,
                cur as int,
                kinds.skip(i as int),
            ),
            objects@.len() == i,
            forall|j: int| 0 <= j < i ==> objects@[j].object_type() == headers@[j].object_type(),
        decreases n - i,
    {
        proof {
            reveal(spec_objects_end);
            assert(kinds.skip(i as int)[0] == headers@[i as int].object_type());
            assert(kinds.skip(i as int).drop_first() =~= kinds.skip(i as int + 1));
        }
        match &headers[i] {
            ObjectHeader::Actor(_) => {
                let (o, np) = ActorObject::read(data, cur)?;
                objects.push(Object::Actor(o));
                cur = np;
            },
            ObjectHeader::Component(_) => {
                let (o, np) = ComponentObject::read(data, cur)?;
                objects.push(Object::Component(o));
                cur = np;
            },
        }
        i = i + 1;
    }
    proof {
        reveal(spec_objects_end);
        assert(kinds.skip(n as int) =~= Seq::<ObjectType>::empty());
    }
    Ok((objects, cur))
}

/// Reads `n` consecutive object headers, in order.
#[verifier::spinoff_prover]
#[verifier::rlimit(100)]
fn read_object_headers(data: &Vec<u8>, pos: usize, n: usize) -> (r: Result<
    (Vec<ObjectHeader>, usize),
    Error,
>)
    requires
        pos <= data@.len(),
    ensures
        r matches Ok(x) ==> pos <= x.1 <= data@.len(),
        r matches Ok(x) ==> x.0@.len() == n,
        match spec_header_kinds(data@, pos as int, n as int) {
            Ok(ke) => r matches Ok(x) && header_kinds_of(x.0@) == ke.0 && x.1 == ke.1,
            Err(k) => r matches Err(e) && kind_of(e) == k,
        },
{
    proof {
        reveal(spec_header_kinds);
        assert(header_kinds_of(Seq::<ObjectHeader>::empty()) =~= Seq::<ObjectType>::empty());
    }
    let mut headers: Vec<ObjectHeader> = Vec::new();
    let mut cur: usize = pos;
    let mut i: usize = 0;
    proof {
        assert(header_kinds_of(headers@) =~= Seq::<ObjectType>::empty());
    }
    while i < n
        invariant
            pos <= cur <= data@.len(),
            i <= n,
            headers@.len() == i,
            match spec_header_kinds(data@, cur as int, n - i) {
                Ok(ke) => spec_header_kinds(data@, pos as int, n as int) == Ok::<
                    (Seq<ObjectType>, int),
                    ErrorKind,
                >((header_kinds_of(headers@) + ke.0, ke.1)),
                Err(k) => spec_header_kinds(data@, pos as int, n as int) == Err::<
                    (Seq<ObjectType>, int),
                    ErrorKind,
                >(k),
            },
        decreases n - i,
    {
        let ghost old_headers = headers@;
        proof {
            reveal(spec_header_kinds);
        }
        let (h, np) = ObjectHeader::read(data, cur)?;
        proof {
            assert(header_kinds_of(old_headers.push(h)) =~= header_kinds_of(old_headers).push(
                h.object_type(),
            ));
            if let Ok(ke2) = spec_header_kinds(data@, np as int, n - i - 1) {
                assert(header_kinds_of(old_headers) + (seq![h.object_type()] + ke2.0)
                    =~= header_kinds_of(old_headers).push(h.object_type()) + ke2.0);
            }
        }
        headers.push(h);
        cur = np;
        i = i + 1;
    }
    proof {
        reveal(spec_header_kinds);
        assert(header_kinds_of(headers@) + Seq::<ObjectType>::empty() =~= header_kinds_of(
            headers@,
        ));
    }
    Ok((headers, cur))
}

/// Reads a level's front: the optional sublevel name, the advisory size,
/// and the header run.
#[verifier::spinoff_prover]
#[verifier::rlimit(100)]
fn read_level_front(data: &Vec<u8>, pos: usize, is_sublevel: bool) -> (r: Result<
    ((SaveString, i32, Vec<ObjectHeader>), usize),
    Error,
>)
    requires
        pos <= data@.len(),
    ensures
        r matches Ok(x) ==> pos <= x.1 <= data@.len(),
        match spec_level_front(data@, pos as int, is_sublevel) {
            Ok(ke) => r matches Ok(x) && header_kinds_of(x.0.2@) == ke.0 && x.1 == ke.1,
            Err(k) => r matches Err(e) && kind_of(e) == k,
        },
        r matches Ok(x) ==> (!is_sublevel ==> x.0.0@ is Empty),
        r matches Ok(x) ==> (is_sublevel ==> (spec_read_string(data@, pos as int) matches Ok(a)
            && x.0.0@ == a.0)),
{
    proof {
        reveal(spec_level_front);
    }
    let (sublevel_name, p) = if is_sublevel {
        SaveString::read(data, pos)?
    } else {
        (SaveString::Empty, pos)
    };
    let (ohcs, p) = read_i32(data, p)?;
    let (hdr_count, p) = read_i32(data, p)?;
    if hdr_count < 0 {
        return Err(Error::LengthMismatch { offset: p });
    }
    let (headers, p2) = read_object_headers(data, p, hdr_count as usize)?;
    Ok(((sublevel_name, ohcs, headers), p2))
}

/// One level of the save: an optional sublevel name, the object headers,
/// collectable references, the objects decoded under those headers, and a
/// trailing reference list.
#[derive(Debug)]
pub struct Level {
    /// Empty for the persistent level; read from the stream for sublevels.
    pub sublevel_name: SaveString,
    pub object_header_and_collectables_size: i32,
    pub object_headers: Array<ObjectHeader>,
    pub collectables: Array<ObjectReference>,
    pub objects_size: i32,
    pub object_count: i32,
    pub objects: Vec<Object>,
    pub collections_2: Array<ObjectReference>,
}

/// The header/body correlation of a decoded level: one object per header,
/// each of the variant its header dictates, and a declared object count that
/// agrees with the header count.
pub open spec fn level_consistent(l: Level) -> bool {
    &&& l.objects@.len() == l.object_headers.0@.len()
    &&& forall|i: int|
        0 <= i < l.objects@.len() ==> l.objects@[i].object_type()
            == l.object_headers.0@[i].object_type()
    &&& l.object_count == l.object_headers.0@.len()
}

impl Level {
    /// Decodes one level. The declared object count must equal the header
    /// count: on a mismatch the parse would desynchronize, so it fails with
    /// `LengthMismatch` instead of truncating.
    #[verifier::spinoff_prover]
    #[verifier::rlimit(100)]
    pub fn read(data: &Vec<u8>, pos: usize, is_sublevel: bool) -> (r: Result<
        (Level, usize),
        Error,
    >)
        requires
            pos <= data@.len(),
        ensures
            r matches Ok(x) ==> pos < x.1 <= data@.len(),
            r matches Ok(x) ==> level_consistent(x.0),
            r matches Ok(x) ==> (!is_sublevel ==> x.0.sublevel_name@ is Empty),
            r matches Ok(x) ==> (is_sublevel ==> (spec_read_string(data@, pos as int) matches Ok(
                a,
            ) && x.0.sublevel_name@ == a.0)),
            match spec_level_end(data@, pos as int, is_sublevel) {
                Ok(end) => r matches Ok(x) && x.1 == end,
                Err(k) => r matches Err(e) && kind_of(e) == k,
            },
    {
        proof {
            reveal(spec_level_end);
        }
        let ((sublevel_name, object_header_and_collectables_size, headers), cur) =
            read_level_front(data, pos, is_sublevel)?;
        let (collectables, p) = read_reference_array(data, cur)?;
        let (objects_size, p) = read_i32(data, p)?;
        let (object_count, p) = read_i32(data, p)?;
        if object_count < 0 || (object_count as usize) != headers.len() {
            return Err(Error::LengthMismatch { offset: p });
        }
        let (objects, p) = parse_objects(data, p, &headers)?;
        let (collections_2, p) = read_reference_array(data, p)?;
        Ok(
            (
                Level {
                    sublevel_name,
                    object_header_and_collectables_size,
                    object_headers: Array(headers),
                    collectables,
                    objects_size,
                    object_count,
                    objects,
                    collections_2,
                },
                p,
            ),
        )
    }
}

/// The whole decompressed body: sublevels, the persistent level (the one
/// level without a sublevel name), and trailing object references.
#[derive(Debug)]
pub struct SaveFileBody {
    pub uncompressed_size: i64,
    pub sub_levels: Array<Level>,
    pub persistent_level: Level,
    pub object_references: Array<ObjectReference>,
}

impl SaveFileBody {
    /// Decodes the logical body stream produced by chunk reassembly: a
    /// declared size, a count-prefixed sublevel sequence, the persistent
    /// level, and the trailing references. Every decoded level satisfies
    /// the header/object correlation.
    #[verifier::spinoff_prover]
    #[verifier::rlimit(100)]
    pub fn read(data: &Vec<u8>, pos: usize) -> (r: Result<(SaveFileBody, usize), Error>)
        requires
            pos <= data@.len(),
        ensures
            r matches Ok(x) ==> pos < x.1 <= data@.len(),
            r matches Ok(x) ==> level_consistent(x.0.persistent_level),
            r matches Ok(x) ==> forall|i: int|
                0 <= i < x.0.sub_levels.0@.len() ==> level_consistent(#[trigger] x.0.sub_levels.0@[i]),
            r matches Ok(x) ==> x.0.uncompressed_size == sle64(data@, pos as int)
                && x.0.sub_levels.0@.len() == sle32(data@, pos + 8),
            match spec_body_end(data@, pos as int) {
                Ok(end) => r matches Ok(x) && x.1 == end,
                Err(k) => r matches Err(e) && kind_of(e) == k,
            },
    {
        proof {
            reveal(spec_body_end);
        }
        let (uncompressed_size, p) = read_i64(data, pos)?;
        let (count, p) = read_i32(data, p)?;
        if count < 0 {
            return Err(Error::LengthMismatch { offset: p });
        }
        let n: usize = count as usize;
        let mut sub_levels: Vec<Level> = Vec::new();
        let mut cur: usize = p;
        let ghost l0 = p as int;
        let mut i: usize = 0;
        while i < n
            invariant
                pos < cur <= data@.len(),
                i <= n,
                l0 == pos + 12,
                pos + 12 <= data@.len(),
                n == sle32(data@, pos + 8),
                spec_levels_end(data@, l0, n as int) == spec_levels_end(
                    data@,
                    cur as int,
                    n - i,
                ),
                sub_levels@.len() == i,
                forall|j: int| 0 <= j < i ==> level_consistent(#[trigger] sub_levels@[j]),
            decreases n - i,
        {
            proof {
                reveal(spec_body_end);
            }
            let (l, np) = Level::read(data, cur, true)?;
            sub_levels.push(l);
            cur = np;
            i = i + 1;
        }
        let (persistent_level, p) = Level::read(data, cur, false)?;
        let (object_references, p) = read_reference_array(data, p)?;
        Ok(
            (
                SaveFileBody {
                    uncompressed_size,
                    sub_levels: Array(sub_levels),
                    persistent_level,
                    object_references,
                },
                p,
            ),
        )
    }
}

} // verus!
