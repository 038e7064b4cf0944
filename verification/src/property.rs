//! The property grammar: a name/type-tagged, None-terminated list of
//! properties. Each property's payload shape is selected by matching its
//! type-tag string against a closed set of known tags; Array, Set, Map and
//! Struct payloads recursively contain further properties or property lists.

use vstd::prelude::*;

use crate::bytes::{le32, read_i32, read_i64, read_i8, read_u32, skip, sle32, sle64, sle8};
use crate::error::{kind_of, Error, ErrorKind};
use crate::containers::Array;
use crate::strings::{bytes_match, matches_lit, spec_read_string, SaveString, StringView};

verus! {

use vstd::string::StringSliceAdditionalSpecFns;

/// The closed set of known property type tags.
#[derive(Debug, Clone, Copy, PartialEq, Eq, Structural)]
pub enum PropertyKind {
    Array,
    Bool,
    Byte,
    Enum,
    Float,
    Int,
    Int64,
    MapProp,
    Name,
    Object,
    SetProp,
    Str,
    Struct,
    Text,
}

/// The payload variant selected by a type-tag string, or nothing for an
/// unrecognized tag. This is the single dispatch point of the grammar.
pub open spec fn spec_property_kind(v: crate::strings::StringView) -> Option<PropertyKind> {
    if bytes_match(v, "ArrayProperty".spec_bytes()) {
        Some(PropertyKind::Array)
    } else if bytes_match(v, "BoolProperty".spec_bytes()) {
        Some(PropertyKind::Bool)
    } else if bytes_match(v, "ByteProperty".spec_bytes()) {
        Some(PropertyKind::Byte)
    } else if bytes_match(v, "EnumProperty".spec_bytes()) {
        Some(PropertyKind::Enum)
    } else if bytes_match(v, "FloatProperty".spec_bytes()) {
        Some(PropertyKind::Float)
    } else if bytes_match(v, "IntProperty".spec_bytes()) {
        Some(PropertyKind::Int)
    } else if bytes_match(v, "Int64Property".spec_bytes()) {
        Some(PropertyKind::Int64)
    } else if bytes_match(v, "MapProperty".spec_bytes()) {
        Some(PropertyKind::MapProp)
    } else if bytes_match(v, "NameProperty".spec_bytes()) {
        Some(PropertyKind::Name)
    } else if bytes_match(v, "ObjectProperty".spec_bytes()) {
        Some(PropertyKind::Object)
    } else if bytes_match(v, "SetProperty".spec_bytes()) {
        Some(PropertyKind::SetProp)
    } else if bytes_match(v, "StrProperty".spec_bytes()) {
        Some(PropertyKind::Str)
    } else if bytes_match(v, "StructProperty".spec_bytes()) {
        Some(PropertyKind::Struct)
    } else if bytes_match(v, "TextProperty".spec_bytes()) {
        Some(PropertyKind::Text)
    } else {
        None
    }
}

/// Maps a type-tag string to the payload variant it selects.
pub fn property_kind(s: &SaveString) -> (r: Option<PropertyKind>)
    ensures
        r == spec_property_kind(s@),
{
    if matches_lit(s, "ArrayProperty") {
        Some(PropertyKind::Array)
    } else if matches_lit(s, "BoolProperty") {
        Some(PropertyKind::Bool)
    } else if matches_lit(s, "ByteProperty") {
        Some(PropertyKind::Byte)
    } else if matches_lit(s, "EnumProperty") {
        Some(PropertyKind::Enum)
    } else if matches_lit(s, "FloatProperty") {
        Some(PropertyKind::Float)
    } else if matches_lit(s, "IntProperty") {
        Some(PropertyKind::Int)
    } else if matches_lit(s, "Int64Property") {
        Some(PropertyKind::Int64)
    } else if matches_lit(s, "MapProperty") {
        Some(PropertyKind::MapProp)
    } else if matches_lit(s, "NameProperty") {
        Some(PropertyKind::Name)
    } else if matches_lit(s, "ObjectProperty") {
        Some(PropertyKind::Object)
    } else if matches_lit(s, "SetProperty") {
        Some(PropertyKind::SetProp)
    } else if matches_lit(s, "StrProperty") {
        Some(PropertyKind::Str)
    } else if matches_lit(s, "StructProperty") {
        Some(PropertyKind::Struct)
    } else if matches_lit(s, "TextProperty") {
        Some(PropertyKind::Text)
    } else {
        None
    }
}

/// Whether a property name is the "None" sentinel that terminates a list.
pub open spec fn is_none_name(v: crate::strings::StringView) -> bool {
    bytes_match(v, "None".spec_bytes())
}

/// Where a bool property payload ends, or why its decode fails.
pub open spec fn spec_bool_prop_end(s: Seq<u8>, i: int) -> Result<int, ErrorKind> {
    if i + 13 <= s.len() {
        Ok(i + 13)
    } else {
        Err(ErrorKind::Truncated)
    }
}

/// Where an int or float property payload ends, or why its decode fails.
pub open spec fn spec_int_prop_end(s: Seq<u8>, i: int) -> Result<int, ErrorKind> {
    if i + 13 <= s.len() {
        Ok(i + 13)
    } else {
        Err(ErrorKind::Truncated)
    }
}

/// Where an int64 property payload ends, or why its decode fails.
pub open spec fn spec_int64_prop_end(s: Seq<u8>, i: int) -> Result<int, ErrorKind> {
    if i + 17 <= s.len() {
        Ok(i + 17)
    } else {
        Err(ErrorKind::Truncated)
    }
}

/// Where a string-valued (Str or Name) property payload ends, or why its
/// decode fails: size, index, one padding byte, then the value string.
pub open spec fn spec_str_prop_end(s: Seq<u8>, i: int) -> Result<int, ErrorKind> {
    if i + 9 > s.len() {
        Err(ErrorKind::Truncated)
    } else {
        match spec_read_string(s, i + 9) {
            Ok(v) => Ok(v.1),
            Err(k) => Err(k),
        }
    }
}

/// Where an enum property payload ends, or why its decode fails.
pub open spec fn spec_enum_prop_end(s: Seq<u8>, i: int) -> Result<int, ErrorKind> {
    if i + 8 > s.len() {
        Err(ErrorKind::Truncated)
    } else {
        match spec_read_string(s, i + 8) {
            Err(k) => Err(k),
            Ok(a) => if a.1 + 1 > s.len() {
                Err(ErrorKind::Truncated)
            } else {
                match spec_read_string(s, a.1 + 1) {
                    Ok(b) => Ok(b.1),
                    Err(k) => Err(k),
                }
            },
        }
    }
}

/// Where an object property payload ends, or why its decode fails.
pub open spec fn spec_object_prop_end(s: Seq<u8>, i: int) -> Result<int, ErrorKind> {
    if i + 9 > s.len() {
        Err(ErrorKind::Truncated)
    } else {
        match spec_read_string(s, i + 9) {
            Err(k) => Err(k),
            Ok(a) => match spec_read_string(s, a.1) {
                Ok(b) => Ok(b.1),
                Err(k) => Err(k),
            },
        }
    }
}

/// Where a text property payload ends, or why its decode fails.
pub open spec fn spec_text_prop_end(s: Seq<u8>, i: int) -> Result<int, ErrorKind> {
    if i + 18 > s.len() {
        Err(ErrorKind::Truncated)
    } else {
        match spec_read_string(s, i + 18) {
            Ok(v) => Ok(v.1),
            Err(k) => Err(k),
        }
    }
}

/// Where a byte property payload ends, or why its decode fails: the inner
/// tag decides between one raw byte and a string.
pub open spec fn spec_byte_prop_end(s: Seq<u8>, i: int) -> Result<int, ErrorKind> {
    if i + 8 > s.len() {
        Err(ErrorKind::Truncated)
    } else {
        match spec_read_string(s, i + 8) {
            Err(k) => Err(k),
            Ok(a) => if is_none_name(a.0) {
                if a.1 + 2 <= s.len() {
                    Ok(a.1 + 2)
                } else {
                    Err(ErrorKind::Truncated)
                }
            } else {
                if a.1 + 1 > s.len() {
                    Err(ErrorKind::Truncated)
                } else {
                    match spec_read_string(s, a.1 + 1) {
                        Ok(b) => Ok(b.1),
                        Err(k) => Err(k),
                    }
                }
            },
        }
    }
}

/// Where an array property payload ends, or why its decode fails: an
/// unrecognized element tag fails before any element, a negative count is a
/// length mismatch.
pub open spec fn spec_array_prop_end(s: Seq<u8>, i: int) -> Result<int, ErrorKind>
    decreases s.len() - i, 1int,
{
    if i + 8 > s.len() {
        Err(ErrorKind::Truncated)
    } else {
        match spec_read_string(s, i + 8) {
            Err(k) => Err(k),
            Ok(et) => if et.1 + 1 > s.len() {
                Err(ErrorKind::Truncated)
            } else if spec_property_kind(et.0) is None {
                Err(ErrorKind::UnknownTag)
            } else if et.1 + 5 > s.len() {
                Err(ErrorKind::Truncated)
            } else if sle32(s, et.1 + 1) < 0 {
                Err(ErrorKind::Mismatch)
            } else {
                spec_elements_end(s, et.1 + 5, et.0, sle32(s, et.1 + 1))
            },
        }
    }
}

/// Where a set property payload ends, or why its decode fails.
pub open spec fn spec_set_prop_end(s: Seq<u8>, i: int) -> Result<int, ErrorKind>
    decreases s.len() - i, 1int,
{
    if i + 8 > s.len() {
        Err(ErrorKind::Truncated)
    } else {
        match spec_read_string(s, i + 8) {
            Err(k) => Err(k),
            Ok(et) => if et.1 + 5 > s.len() {
                Err(ErrorKind::Truncated)
            } else if et.1 + 9 > s.len() {
                Err(ErrorKind::Truncated)
            } else if spec_property_kind(et.0) is None {
                Err(ErrorKind::UnknownTag)
            } else if et.1 + 13 > s.len() {
                Err(ErrorKind::Truncated)
            } else if sle32(s, et.1 + 9) < 0 {
                Err(ErrorKind::Mismatch)
            } else {
                spec_elements_end(s, et.1 + 13, et.0, sle32(s, et.1 + 9))
            },
        }
    }
}

/// Where a map property payload ends, or why its decode fails.
pub open spec fn spec_map_prop_end(s: Seq<u8>, i: int) -> Result<int, ErrorKind>
    decreases s.len() - i, 1int,
{
    if i + 8 > s.len() {
        Err(ErrorKind::Truncated)
    } else {
        match spec_read_string(s, i + 8) {
            Err(k) => Err(k),
            Ok(kt) => match spec_read_string(s, kt.1) {
                Err(k) => Err(k),
                Ok(vt) => if vt.1 + 1 > s.len() {
                    Err(ErrorKind::Truncated)
                } else if vt.1 + 5 > s.len() {
                    Err(ErrorKind::Truncated)
                } else if spec_property_kind(kt.0) is None {
                    Err(ErrorKind::UnknownTag)
                } else if spec_property_kind(vt.0) is None {
                    Err(ErrorKind::UnknownTag)
                } else if vt.1 + 9 > s.len() {
                    Err(ErrorKind::Truncated)
                } else if sle32(s, vt.1 + 5) < 0 {
                    Err(ErrorKind::Mismatch)
                } else {
                    spec_pairs_end(s, vt.1 + 9, kt.0, vt.0, sle32(s, vt.1 + 5))
                },
            },
        }
    }
}

/// Where a struct property payload ends, or why its decode fails.
pub open spec fn spec_struct_prop_end(s: Seq<u8>, i: int) -> Result<int, ErrorKind>
    decreases s.len() - i, 1int,
{
    if i + 8 > s.len() {
        Err(ErrorKind::Truncated)
    } else {
        match spec_read_string(s, i + 8) {
            Err(k) => Err(k),
            Ok(st) => if st.1 + 17 > s.len() {
                Err(ErrorKind::Truncated)
            } else {
                spec_typed_data_end(s, st.1 + 17, st.0, true)
            },
        }
    }
}

/// Where a typed struct payload ends, or why its decode fails: the
/// struct-type tag selects a fixed shape, any other tag a nested property
/// list.
pub open spec fn spec_typed_data_end(s: Seq<u8>, i: int, st: StringView, is_payload: bool) -> Result<
    int,
    ErrorKind,
>
    decreases s.len() - i, 1int,
{
    if bytes_match(st, "Box".spec_bytes()) {
        if i + 28 <= s.len() {
            Ok(i + 28)
        } else {
            Err(ErrorKind::Truncated)
        }
    } else if bytes_match(st, "FluidBox".spec_bytes()) {
        if i + 4 <= s.len() {
            Ok(i + 4)
        } else {
            Err(ErrorKind::Truncated)
        }
    } else if bytes_match(st, "InventoryItem".spec_bytes()) {
        if i + 4 > s.len() {
            Err(ErrorKind::Truncated)
        } else {
            match spec_read_string(s, i + 4) {
                Err(k) => Err(k),
                Ok(a) => match spec_read_string(s, a.1) {
                    Err(k) => Err(k),
                    Ok(b) => match spec_read_string(s, b.1) {
                        Err(k) => Err(k),
                        Ok(c) => if is_payload {
                            if c.1 + 13 <= s.len() {
                                Ok(c.1 + 13)
                            } else {
                                Err(ErrorKind::Truncated)
                            }
                        } else {
                            Ok(c.1)
                        },
                    },
                },
            }
        }
    } else if bytes_match(st, "LinearColor".spec_bytes()) {
        if i + 16 <= s.len() {
            Ok(i + 16)
        } else {
            Err(ErrorKind::Truncated)
        }
    } else if bytes_match(st, "Quat".spec_bytes()) {
        if i + 16 <= s.len() {
            Ok(i + 16)
        } else {
            Err(ErrorKind::Truncated)
        }
    } else if bytes_match(st, "RailroadTrackPosition".spec_bytes()) {
        match spec_read_string(s, i) {
            Err(k) => Err(k),
            Ok(a) => match spec_read_string(s, a.1) {
                Err(k) => Err(k),
                Ok(b) => if b.1 + 8 <= s.len() {
                    Ok(b.1 + 8)
                } else {
                    Err(ErrorKind::Truncated)
                },
            },
        }
    } else if bytes_match(st, "Vector".spec_bytes()) {
        if i + 12 <= s.len() {
            Ok(i + 12)
        } else {
            Err(ErrorKind::Truncated)
        }
    } else {
        match spec_property_list_scan(s, i) {
            Ok(nv) => Ok(nv.1),
            Err(k) => Err(k),
        }
    }
}

/// Where a property payload under the given type tag ends, or why its
/// decode fails; an unrecognized tag is `UnknownTag` with nothing consumed.
pub open spec fn spec_property_end(s: Seq<u8>, i: int, tag: StringView) -> Result<int, ErrorKind>
    decreases s.len() - i, 2int,
{
    match spec_property_kind(tag) {
        None => Err(ErrorKind::UnknownTag),
        Some(PropertyKind::Array) => spec_array_prop_end(s, i),
        Some(PropertyKind::Bool) => spec_bool_prop_end(s, i),
        Some(PropertyKind::Byte) => spec_byte_prop_end(s, i),
        Some(PropertyKind::Enum) => spec_enum_prop_end(s, i),
        Some(PropertyKind::Float) => spec_int_prop_end(s, i),
        Some(PropertyKind::Int) => spec_int_prop_end(s, i),
        Some(PropertyKind::Int64) => spec_int64_prop_end(s, i),
        Some(PropertyKind::MapProp) => spec_map_prop_end(s, i),
        Some(PropertyKind::Name) => spec_str_prop_end(s, i),
        Some(PropertyKind::Object) => spec_object_prop_end(s, i),
        Some(PropertyKind::SetProp) => spec_set_prop_end(s, i),
        Some(PropertyKind::Str) => spec_str_prop_end(s, i),
        Some(PropertyKind::Struct) => spec_struct_prop_end(s, i),
        Some(PropertyKind::Text) => spec_text_prop_end(s, i),
    }
}

/// Where `n` consecutive elements under one fixed tag end, or why their
/// decode fails. Each element must make progress; the impossible standstill
/// case is closed off as a truncation.
pub open spec fn spec_elements_end(s: Seq<u8>, i: int, tag: StringView, n: int) -> Result<
    int,
    ErrorKind,
>
    decreases s.len() - i, 3int,
{
    if n <= 0 {
        Ok(i)
    } else {
        match spec_property_end(s, i, tag) {
            Err(k) => Err(k),
            Ok(j) => if i < j <= s.len() {
                spec_elements_end(s, j, tag, n - 1)
            } else {
                Err(ErrorKind::Truncated)
            },
        }
    }
}

/// Where `n` consecutive key/value pairs end, or why their decode fails.
pub open spec fn spec_pairs_end(s: Seq<u8>, i: int, kt: StringView, vt: StringView, n: int) -> Result<
    int,
    ErrorKind,
>
    decreases s.len() - i, 3int,
{
    if n <= 0 {
        Ok(i)
    } else {
        match spec_property_end(s, i, kt) {
            Err(k) => Err(k),
            Ok(j) => if i < j <= s.len() {
                match spec_property_end(s, j, vt) {
                    Err(k) => Err(k),
                    Ok(j2) => if i < j2 <= s.len() {
                        spec_pairs_end(s, j2, kt, vt, n - 1)
                    } else {
                        Err(ErrorKind::Truncated)
                    },
                }
            } else {
                Err(ErrorKind::Truncated)
            },
        }
    }
}

/// What scanning a property list yields: the names of its entries, in
/// stream order up to (and excluding) the first "None"-named sentinel, and
/// the position just past that sentinel; or why the scan fails.
pub open spec fn spec_property_list_scan(s: Seq<u8>, i: int) -> Result<
    (Seq<StringView>, int),
    ErrorKind,
>
    decreases s.len() - i, 0int,
{
    match spec_read_string(s, i) {
        Err(k) => Err(k),
        Ok((name, j)) => if is_none_name(name) {
            Ok((Seq::empty(), j))
        } else {
            match spec_read_string(s, j) {
                Err(k) => Err(k),
                Ok((tag, t)) => match spec_property_end(s, t, tag) {
                    Err(k) => Err(k),
                    Ok(e) => if i < e <= s.len() {
                        match spec_property_list_scan(s, e) {
                            Err(k) => Err(k),
                            Ok((rest, end)) => Ok((seq![name] + rest, end)),
                        }
                    } else {
                        Err(ErrorKind::Truncated)
                    },
                },
            }
        },
    }
}

#[derive(Debug)]
pub struct BoolProperty {
    pub index: i32,
    pub value: bool,
}

#[derive(Debug)]
pub struct IntProperty {
    pub size: i32,
    pub index: i32,
    pub value: i32,
}

impl Default for IntProperty {
    /// The zero value used where an optional trailing record is absent.
    fn default() -> (r: Self)
        ensures
            r.size == 0 && r.index == 0 && r.value == 0,
    {
        IntProperty { size: 0, index: 0, value: 0 }
    }
}

#[derive(Debug)]
pub struct Int64Property {
    pub size: i32,
    pub index: i32,
    pub value: i64,
}

#[derive(Debug)]
pub struct FloatProperty {
    pub size: i32,
    pub index: i32,
    /// The raw little-endian bit pattern of the 32-bit float value; the
    /// decoder preserves it without interpreting it.
    pub value: u32,
}

#[derive(Debug)]
pub struct EnumProperty {
    pub size: i32,
    pub index: i32,
    pub prop_type: SaveString,
    pub value: SaveString,
}

#[derive(Debug)]
pub struct NameProperty {
    pub size: i32,
    pub index: i32,
    pub value: SaveString,
}

#[derive(Debug)]
pub struct StrProperty {
    pub size: i32,
    pub index: i32,
    pub value: SaveString,
}

#[derive(Debug)]
pub struct ObjectProperty {
    pub size: i32,
    pub index: i32,
    pub level_name: SaveString,
    pub path_name: SaveString,
}

#[derive(Debug)]
pub struct TextProperty {
    pub size: i32,
    pub index: i32,
    pub flags: i32,
    pub history_type: i8,
    pub is_culture_invariant: bool,
    pub value: SaveString,
}

/// A byte property's payload: a raw signed byte when its inner type tag is
/// "None", a string for any other tag.
#[derive(Debug)]
pub enum BytePropertyValue {
    Byte(i8),
    Str(SaveString),
}

#[derive(Debug)]
pub struct ByteProperty {
    pub size: i32,
    pub index: i32,
    pub prop_type: SaveString,
    pub value: BytePropertyValue,
}

impl BoolProperty {
    /// Fixed layout: four ignored size bytes, the index, a 32-bit boolean,
    /// one padding byte.
    pub fn read(data: &Vec<u8>, pos: usize) -> (r: Result<(BoolProperty, usize), Error>)
        requires
            pos <= data@.len(),
        ensures
            pos + 13 <= data@.len() ==> (r matches Ok(x) && x.0.index == sle32(data@, pos + 4)
                && x.0.value == (le32(data@, pos + 8) != 0) && x.1 == pos + 13),
            pos + 13 > data@.len() ==> (r matches Err(e) && e is TruncatedInput),
    {
        let p = skip(data, pos, 4)?;
        let (index, p) = read_i32(data, p)?;
        let (raw, p) = read_u32(data, p)?;
        let p = skip(data, p, 1)?;
        Ok((BoolProperty { index, value: crate::adabool(raw) }, p))
    }
}

impl IntProperty {
    /// Fixed layout: size, index, one padding byte, a 32-bit value.
    pub fn read(data: &Vec<u8>, pos: usize) -> (r: Result<(IntProperty, usize), Error>)
        requires
            pos <= data@.len(),
        ensures
            pos + 13 <= data@.len() ==> (r matches Ok(x) && x.0.size == sle32(data@, pos as int)
                && x.0.index == sle32(data@, pos + 4) && x.0.value == sle32(data@, pos + 9) && x.1
                == pos + 13),
            pos + 13 > data@.len() ==> (r matches Err(e) && e is TruncatedInput),
    {
        let (size, p) = read_i32(data, pos)?;
        let (index, p) = read_i32(data, p)?;
        let p = skip(data, p, 1)?;
        let (value, p) = read_i32(data, p)?;
        Ok((IntProperty { size, index, value }, p))
    }
}

impl Int64Property {
    /// Fixed layout: size, index, one padding byte, a 64-bit value.
    pub fn read(data: &Vec<u8>, pos: usize) -> (r: Result<(Int64Property, usize), Error>)
        requires
            pos <= data@.len(),
        ensures
            pos + 17 <= data@.len() ==> (r matches Ok(x) && x.0.size == sle32(data@, pos as int)
                && x.0.index == sle32(data@, pos + 4) && x.0.value == sle64(data@, pos + 9) && x.1
                == pos + 17),
            pos + 17 > data@.len() ==> (r matches Err(e) && e is TruncatedInput),
    {
        let (size, p) = read_i32(data, pos)?;
        let (index, p) = read_i32(data, p)?;
        let p = skip(data, p, 1)?;
        let (value, p) = read_i64(data, p)?;
        Ok((Int64Property { size, index, value }, p))
    }
}

impl FloatProperty {
    /// Fixed layout: size, index, one padding byte, four value bytes kept as
    /// a raw bit pattern.
    pub fn read(data: &Vec<u8>, pos: usize) -> (r: Result<(FloatProperty, usize), Error>)
        requires
            pos <= data@.len(),
        ensures
            pos + 13 <= data@.len() ==> (r matches Ok(x) && x.0.size == sle32(data@, pos as int)
                && x.0.index == sle32(data@, pos + 4) && x.0.value == le32(data@, pos + 9) && x.1
                == pos + 13),
            pos + 13 > data@.len() ==> (r matches Err(e) && e is TruncatedInput),
    {
        let (size, p) = read_i32(data, pos)?;
        let (index, p) = read_i32(data, p)?;
        let p = skip(data, p, 1)?;
        let (value, p) = read_u32(data, p)?;
        Ok((FloatProperty { size, index, value }, p))
    }
}

impl StrProperty {
    /// Size, index, one padding byte, then the value string.
    pub fn read(data: &Vec<u8>, pos: usize) -> (r: Result<(StrProperty, usize), Error>)
        requires
            pos <= data@.len(),
        ensures
            r matches Ok(x) ==> pos < x.1 <= data@.len(),
            r matches Ok(x) ==> x.0.size == sle32(data@, pos as int) && x.0.index == sle32(
                data@,
                pos + 4,
            ) && (spec_read_string(data@, pos + 9) matches Ok(sv) && x.0.value@ == sv.0 && x.1
                == sv.1),
            match spec_str_prop_end(data@, pos as int) {
                Ok(end) => r matches Ok(x) && x.1 == end,
                Err(k) => r matches Err(e) && kind_of(e) == k,
            },
    {
        let (size, p) = read_i32(data, pos)?;
        let (index, p) = read_i32(data, p)?;
        let p = skip(data, p, 1)?;
        let (value, p) = SaveString::read(data, p)?;
        Ok((StrProperty { size, index, value }, p))
    }
}

impl NameProperty {
    /// Size, index, one padding byte, then the value string.
    pub fn read(data: &Vec<u8>, pos: usize) -> (r: Result<(NameProperty, usize), Error>)
        requires
            pos <= data@.len(),
        ensures
            r matches Ok(x) ==> pos < x.1 <= data@.len(),
            r matches Ok(x) ==> x.0.size == sle32(data@, pos as int) && x.0.index == sle32(
                data@,
                pos + 4,
            ) && (spec_read_string(data@, pos + 9) matches Ok(sv) && x.0.value@ == sv.0 && x.1
                == sv.1),
            match spec_str_prop_end(data@, pos as int) {
                Ok(end) => r matches Ok(x) && x.1 == end,
                Err(k) => r matches Err(e) && kind_of(e) == k,
            },
    {
        let (size, p) = read_i32(data, pos)?;
        let (index, p) = read_i32(data, p)?;
        let p = skip(data, p, 1)?;
        let (value, p) = SaveString::read(data, p)?;
        Ok((NameProperty { size, index, value }, p))
    }
}

impl EnumProperty {
    /// Size, index, the inner type tag, one padding byte, then the value
    /// string.
    pub fn read(data: &Vec<u8>, pos: usize) -> (r: Result<(EnumProperty, usize), Error>)
        requires
            pos <= data@.len(),
        ensures
            r matches Ok(x) ==> pos < x.1 <= data@.len(),
            r matches Ok(x) ==> x.0.size == sle32(data@, pos as int) && x.0.index == sle32(
                data@,
                pos + 4,
            ) && (spec_read_string(data@, pos + 8) matches Ok(a) && x.0.prop_type@ == a.0 && (
            spec_read_string(data@, a.1 + 1) matches Ok(b) && x.0.value@ == b.0 && x.1 == b.1)),
            match spec_enum_prop_end(data@, pos as int) {
                Ok(end) => r matches Ok(x) && x.1 == end,
                Err(k) => r matches Err(e) && kind_of(e) == k,
            },
    {
        let (size, p) = read_i32(data, pos)?;
        let (index, p) = read_i32(data, p)?;
        let (prop_type, p) = SaveString::read(data, p)?;
        let p = skip(data, p, 1)?;
        let (value, p) = SaveString::read(data, p)?;
        Ok((EnumProperty { size, index, prop_type, value }, p))
    }
}

impl ObjectProperty {
    /// Size, index, one padding byte, then the level and path name strings.
    pub fn read(data: &Vec<u8>, pos: usize) -> (r: Result<(ObjectProperty, usize), Error>)
        requires
            pos <= data@.len(),
        ensures
            r matches Ok(x) ==> pos < x.1 <= data@.len(),
            r matches Ok(x) ==> x.0.size == sle32(data@, pos as int) && x.0.index == sle32(
                data@,
                pos + 4,
            ) && (spec_read_string(data@, pos + 9) matches Ok(a) && x.0.level_name@ == a.0 && (
            spec_read_string(data@, a.1) matches Ok(b) && x.0.path_name@ == b.0 && x.1 == b.1)),
            match spec_object_prop_end(data@, pos as int) {
                Ok(end) => r matches Ok(x) && x.1 == end,
                Err(k) => r matches Err(e) && kind_of(e) == k,
            },
    {
        let (size, p) = read_i32(data, pos)?;
        let (index, p) = read_i32(data, p)?;
        let p = skip(data, p, 1)?;
        let (level_name, p) = SaveString::read(data, p)?;
        let (path_name, p) = SaveString::read(data, p)?;
        Ok((ObjectProperty { size, index, level_name, path_name }, p))
    }
}

impl TextProperty {
    /// Size, index, one padding byte, flags, a history-type byte, a 32-bit
    /// culture-invariant flag, then the value string.
    pub fn read(data: &Vec<u8>, pos: usize) -> (r: Result<(TextProperty, usize), Error>)
        requires
            pos <= data@.len(),
        ensures
            r matches Ok(x) ==> pos < x.1 <= data@.len(),
            r matches Ok(x) ==> x.0.size == sle32(data@, pos as int) && x.0.index == sle32(
                data@,
                pos + 4,
            ) && x.0.flags == sle32(data@, pos + 9) && x.0.history_type == sle8(data@, pos + 13)
                && x.0.is_culture_invariant == (le32(data@, pos + 14) != 0) && (spec_read_string(
                data@,
                pos + 18,
            ) matches Ok(sv) && x.0.value@ == sv.0 && x.1 == sv.1),
            match spec_text_prop_end(data@, pos as int) {
                Ok(end) => r matches Ok(x) && x.1 == end,
                Err(k) => r matches Err(e) && kind_of(e) == k,
            },
    {
        let (size, p) = read_i32(data, pos)?;
        let (index, p) = read_i32(data, p)?;
        let p = skip(data, p, 1)?;
        let (flags, p) = read_i32(data, p)?;
        let (history_type, p) = read_i8(data, p)?;
        let (raw, p) = read_u32(data, p)?;
        let (value, p) = SaveString::read(data, p)?;
        Ok(
            (
                TextProperty {
                    size,
                    index,
                    flags,
                    history_type,
                    is_culture_invariant: crate::adabool(raw),
                    value,
                },
                p,
            ),
        )
    }
}

impl ByteProperty {
    /// Size, index, an inner type tag, one padding byte, then either a raw
    /// signed byte (inner tag "None") or a string (any other inner tag): a
    /// second, nested tag-driven dispatch inside one property variant.
    pub fn read(data: &Vec<u8>, pos: usize) -> (r: Result<(ByteProperty, usize), Error>)
        requires
            pos <= data@.len(),
        ensures
            r matches Ok(x) ==> pos < x.1 <= data@.len(),
            r matches Ok(x) ==> x.0.size == sle32(data@, pos as int) && x.0.index == sle32(
                data@,
                pos + 4,
            ),
            r matches Ok(x) ==> (x.0.value is Byte <==> is_none_name(x.0.prop_type@)),
            r matches Ok(x) ==> (spec_read_string(data@, pos + 8) matches Ok(a)
                && x.0.prop_type@ == a.0 && (is_none_name(a.0) ==> (x.0.value matches
                BytePropertyValue::Byte(b) && b == sle8(data@, a.1 + 1) && x.1 == a.1 + 2)) && (
            !is_none_name(a.0) ==> (spec_read_string(data@, a.1 + 1) matches Ok(v)
                && (x.0.value matches BytePropertyValue::Str(sv) && sv@ == v.0) && x.1 == v.1))),
            match spec_byte_prop_end(data@, pos as int) {
                Ok(end) => r matches Ok(x) && x.1 == end,
                Err(k) => r matches Err(e) && kind_of(e) == k,
            },
    {
        let (size, p) = read_i32(data, pos)?;
        let (index, p) = read_i32(data, p)?;
        let (prop_type, p) = SaveString::read(data, p)?;
        let p = skip(data, p, 1)?;
        if matches_lit(&prop_type, "None") {
            let (b, p) = read_i8(data, p)?;
            Ok((ByteProperty { size, index, prop_type, value: BytePropertyValue::Byte(b) }, p))
        } else {
            let (s, p) = SaveString::read(data, p)?;
            Ok((ByteProperty { size, index, prop_type, value: BytePropertyValue::Str(s) }, p))
        }
    }
}

#[derive(Debug)]
pub struct ArrayProperty {
    pub size: i32,
    pub index: i32,
    pub element_type: SaveString,
    pub elements: Array<Property>,
}

#[derive(Debug)]
pub struct SetProperty {
    pub size: i32,
    pub index: i32,
    pub element_type: SaveString,
    pub element_count: i32,
    pub elements: Array<Property>,
}

#[derive(Debug)]
pub struct KVPair {
    pub key: Property,
    pub value: Property,
}

#[derive(Debug)]
pub struct MapProperty {
    pub size: i32,
    pub index: i32,
    pub key_type: SaveString,
    pub value_type: SaveString,
    pub mode_type: i32,
    pub elements: Array<KVPair>,
}

#[derive(Debug)]
pub struct StructProperty {
    pub size: i32,
    pub index: i32,
    pub struct_type: SaveString,
    pub typed_data: TypedData,
}

/// The payload of a struct-typed property or element: one of the built-in
/// shapes selected by the struct-type tag, or a nested property list for any
/// other tag. Float fields are kept as raw little-endian bit patterns.
#[derive(Debug)]
pub enum TypedData {
    PropertyList(PropertyList),
    Box {
        min_x: u32,
        min_y: u32,
        min_z: u32,
        max_x: u32,
        max_y: u32,
        max_z: u32,
        is_value: bool,
    },
    FluidBox(u32),
    InventoryItem { item_type: SaveString, level_name: SaveString, path_name: SaveString, extra: IntProperty },
    LinearColor { r: u32, g: u32, b: u32, a: u32 },
    Quat { x: u32, y: u32, z: u32, w: u32 },
    RailroadTrackPosition { level_name: SaveString, path_name: SaveString, offset: u32, forward: u32 },
    Vector { x: u32, y: u32, z: u32 },
}

/// An ordered sequence of named properties, as read up to (and excluding)
/// the "None" sentinel.
#[derive(Debug)]
pub struct PropertyList(pub Vec<(SaveString, Property)>);

/// A decoded property payload, one variant per known type tag.
#[derive(Debug)]
pub enum Property {
    Array(ArrayProperty),
    Bool(BoolProperty),
    Byte(ByteProperty),
    Enum(EnumProperty),
    Float(FloatProperty),
    Int(IntProperty),
    Int64(Int64Property),
    MapProp(MapProperty),
    Name(NameProperty),
    Object(ObjectProperty),
    SetProp(SetProperty),
    Str(StrProperty),
    Struct(StructProperty),
    Text(TextProperty),
}

impl Property {
    /// The tag kind this payload was decoded under.
    pub open spec fn kind(&self) -> PropertyKind {
        match self {
            Property::Array(_) => PropertyKind::Array,
            Property::Bool(_) => PropertyKind::Bool,
            Property::Byte(_) => PropertyKind::Byte,
            Property::Enum(_) => PropertyKind::Enum,
            Property::Float(_) => PropertyKind::Float,
            Property::Int(_) => PropertyKind::Int,
            Property::Int64(_) => PropertyKind::Int64,
            Property::MapProp(_) => PropertyKind::MapProp,
            Property::Name(_) => PropertyKind::Name,
            Property::Object(_) => PropertyKind::Object,
            Property::SetProp(_) => PropertyKind::SetProp,
            Property::Str(_) => PropertyKind::Str,
            Property::Struct(_) => PropertyKind::Struct,
            Property::Text(_) => PropertyKind::Text,
        }
    }

    /// Decodes one property payload under the given type tag. The variant of
    /// the result is forced by the tag; an unrecognized tag fails with
    /// `UnknownTag` and nothing more is consumed.
    pub fn read(data: &Vec<u8>, pos: usize, prop_type: &SaveString) -> (r: Result<
        (Property, usize),
        Error,
    >)
        requires
            pos <= data@.len(),
        ensures
            r matches Ok(x) ==> pos < x.1 <= data@.len(),
            r matches Ok(x) ==> (spec_property_kind(prop_type@) matches Some(k) && x.0.kind()
                == k),
            spec_property_kind(prop_type@) is None ==> (r matches Err(e) && e is UnknownTag),
            match spec_property_end(data@, pos as int, prop_type@) {
                Ok(end) => r matches Ok(x) && x.1 == end,
                Err(k) => r matches Err(e) && kind_of(e) == k,
            },
        decreases data@.len() - pos, 3int,
    {
        match property_kind(prop_type) {
            None => Err(Error::UnknownTag { offset: pos }),
            Some(PropertyKind::Array) => {
                let (p, np) = ArrayProperty::read(data, pos)?;
                Ok((Property::Array(p), np))
            },
            Some(PropertyKind::Bool) => {
                let (p, np) = BoolProperty::read(data, pos)?;
                Ok((Property::Bool(p), np))
            },
            Some(PropertyKind::Byte) => {
                let (p, np) = ByteProperty::read(data, pos)?;
                Ok((Property::Byte(p), np))
            },
            Some(PropertyKind::Enum) => {
                let (p, np) = EnumProperty::read(data, pos)?;
                Ok((Property::Enum(p), np))
            },
            Some(PropertyKind::Float) => {
                let (p, np) = FloatProperty::read(data, pos)?;
                Ok((Property::Float(p), np))
            },
            Some(PropertyKind::Int) => {
                let (p, np) = IntProperty::read(data, pos)?;
                Ok((Property::Int(p), np))
            },
            Some(PropertyKind::Int64) => {
                let (p, np) = Int64Property::read(data, pos)?;
                Ok((Property::Int64(p), np))
            },
            Some(PropertyKind::MapProp) => {
                let (p, np) = MapProperty::read(data, pos)?;
                Ok((Property::MapProp(p), np))
            },
            Some(PropertyKind::Name) => {
                let (p, np) = NameProperty::read(data, pos)?;
                Ok((Property::Name(p), np))
            },
            Some(PropertyKind::Object) => {
                let (p, np) = ObjectProperty::read(data, pos)?;
                Ok((Property::Object(p), np))
            },
            Some(PropertyKind::SetProp) => {
                let (p, np) = SetProperty::read(data, pos)?;
                Ok((Property::SetProp(p), np))
            },
            Some(PropertyKind::Str) => {
                let (p, np) = StrProperty::read(data, pos)?;
                Ok((Property::Str(p), np))
            },
            Some(PropertyKind::Struct) => {
                let (p, np) = StructProperty::read(data, pos)?;
                Ok((Property::Struct(p), np))
            },
            Some(PropertyKind::Text) => {
                let (p, np) = TextProperty::read(data, pos)?;
                Ok((Property::Text(p), np))
            },
        }
    }
}

impl ArrayProperty {
    /// Size, index, one element-type tag applied uniformly to every element,
    /// one padding byte, then a count-prefixed element sequence. An
    /// unrecognized element tag fails with `UnknownTag` before any element
    /// is decoded.
    pub fn read(data: &Vec<u8>, pos: usize) -> (r: Result<(ArrayProperty, usize), Error>)
        requires
            pos <= data@.len(),
        ensures
            r matches Ok(x) ==> pos < x.1 <= data@.len(),
            r matches Ok(x) ==> (spec_property_kind(x.0.element_type@) matches Some(k) && forall|
                i: int,
            | 0 <= i < x.0.elements.0@.len() ==> x.0.elements.0@[i].kind() == k),
            r matches Ok(x) ==> (spec_read_string(data@, pos + 8) matches Ok(et)
                && x.0.element_type@ == et.0 && x.0.elements.0@.len() == sle32(data@, et.1 + 1)),
            match spec_array_prop_end(data@, pos as int) {
                Ok(end) => r matches Ok(x) && x.1 == end,
                Err(k) => r matches Err(e) && kind_of(e) == k,
            },
        decreases data@.len() - pos, 2int,
    {
        let (size, p) = read_i32(data, pos)?;
        let (index, p) = read_i32(data, p)?;
        let (element_type, p) = SaveString::read(data, p)?;
        let p = skip(data, p, 1)?;
        let ghost ek = spec_property_kind(element_type@);
        if property_kind(&element_type).is_none() {
            return Err(Error::UnknownTag { offset: p });
        }
        let (count, p) = read_i32(data, p)?;
        if count < 0 {
            return Err(Error::LengthMismatch { offset: p });
        }
        let n: usize = count as usize;
        let mut elements: Vec<Property> = Vec::new();
        let mut cur: usize = p;
        let ghost p0 = p as int;
        let mut i: usize = 0;
        while i < n
            invariant
                pos < cur <= data@.len(),
                i <= n,
                ek == spec_property_kind(element_type@),
                ek is Some,
                spec_read_string(data@, pos + 8) matches Ok(et) && element_type@ == et.0 && n
                    == sle32(data@, et.1 + 1),
                spec_array_prop_end(data@, pos as int) == spec_elements_end(
                    data@,
                    p0,
                    element_type@,
                    n as int,
                ),
                spec_elements_end(data@, p0, element_type@, n as int) == spec_elements_end(
                    data@,
                    cur as int,
                    element_type@,
                    n - i,
                ),
                elements@.len() == i,
                forall|j: int| 0 <= j < i ==> elements@[j].kind() == ek->0,
            decreases n - i,
        {
            let (el, np) = Property::read(data, cur, &element_type)?;
            elements.push(el);
            cur = np;
            i = i + 1;
        }
        Ok((ArrayProperty { size, index, element_type, elements: Array(elements) }, cur))
    }
}

impl SetProperty {
    /// Size, index, one element-type tag, five padding bytes, a declared
    /// element count, then a count-prefixed element sequence. An
    /// unrecognized element tag fails with `UnknownTag` before any element
    /// is decoded.
    pub fn read(data: &Vec<u8>, pos: usize) -> (r: Result<(SetProperty, usize), Error>)
        requires
            pos <= data@.len(),
        ensures
            r matches Ok(x) ==> pos < x.1 <= data@.len(),
            r matches Ok(x) ==> (spec_property_kind(x.0.element_type@) matches Some(k) && forall|
                i: int,
            | 0 <= i < x.0.elements.0@.len() ==> x.0.elements.0@[i].kind() == k),
            r matches Ok(x) ==> (spec_read_string(data@, pos + 8) matches Ok(et)
                && x.0.element_type@ == et.0 && x.0.elements.0@.len() == sle32(data@, et.1 + 9)),
            match spec_set_prop_end(data@, pos as int) {
                Ok(end) => r matches Ok(x) && x.1 == end,
                Err(k) => r matches Err(e) && kind_of(e) == k,
            },
        decreases data@.len() - pos, 2int,
    {
        let (size, p) = read_i32(data, pos)?;
        let (index, p) = read_i32(data, p)?;
        let (element_type, p) = SaveString::read(data, p)?;
        let p = skip(data, p, 5)?;
        let (element_count, p) = read_i32(data, p)?;
        let ghost ek = spec_property_kind(element_type@);
        if property_kind(&element_type).is_none() {
            return Err(Error::UnknownTag { offset: p });
        }
        let (count, p) = read_i32(data, p)?;
        if count < 0 {
            return Err(Error::LengthMismatch { offset: p });
        }
        let n: usize = count as usize;
        let mut elements: Vec<Property> = Vec::new();
        let mut cur: usize = p;
        let ghost p0 = p as int;
        let mut i: usize = 0;
        while i < n
            invariant
                pos < cur <= data@.len(),
                i <= n,
                ek == spec_property_kind(element_type@),
                ek is Some,
                spec_read_string(data@, pos + 8) matches Ok(et) && element_type@ == et.0 && n
                    == sle32(data@, et.1 + 9),
                spec_set_prop_end(data@, pos as int) == spec_elements_end(
                    data@,
                    p0,
                    element_type@,
                    n as int,
                ),
                spec_elements_end(data@, p0, element_type@, n as int) == spec_elements_end(
                    data@,
                    cur as int,
                    element_type@,
                    n - i,
                ),
                elements@.len() == i,
                forall|j: int| 0 <= j < i ==> elements@[j].kind() == ek->0,
            decreases n - i,
        {
            let (el, np) = Property::read(data, cur, &element_type)?;
            elements.push(el);
            cur = np;
            i = i + 1;
        }
        Ok(
            (
                SetProperty { size, index, element_type, element_count, elements: Array(elements) },
                cur,
            ),
        )
    }
}

impl MapProperty {
    /// Size, index, one key-type and one value-type tag each applied to
    /// every entry, one padding byte, a mode field, then a count-prefixed
    /// entry sequence kept in read order with duplicate keys preserved.
    #[verifier::spinoff_prover]
    #[verifier::rlimit(100)]
    pub fn read(data: &Vec<u8>, pos: usize) -> (r: Result<(MapProperty, usize), Error>)
        requires
            pos <= data@.len(),
        ensures
            r matches Ok(x) ==> pos < x.1 <= data@.len(),
            r matches Ok(x) ==> (spec_property_kind(x.0.key_type@) matches Some(kk) && forall|
                i: int,
            | 0 <= i < x.0.elements.0@.len() ==> x.0.elements.0@[i].key.kind() == kk),
            r matches Ok(x) ==> (spec_property_kind(x.0.value_type@) matches Some(vk) && forall|
                i: int,
            | 0 <= i < x.0.elements.0@.len() ==> x.0.elements.0@[i].value.kind() == vk),
            r matches Ok(x) ==> (spec_read_string(data@, pos + 8) matches Ok(kt)
                && x.0.key_type@ == kt.0 && (spec_read_string(data@, kt.1) matches Ok(vt)
                && x.0.value_type@ == vt.0 && x.0.elements.0@.len() == sle32(data@, vt.1 + 5))),
            match spec_map_prop_end(data@, pos as int) {
                Ok(end) => r matches Ok(x) && x.1 == end,
                Err(k) => r matches Err(e) && kind_of(e) == k,
            },
        decreases data@.len() - pos, 2int,
    {
        let (size, p) = read_i32(data, pos)?;
        let (index, p) = read_i32(data, p)?;
        let (key_type, p) = SaveString::read(data, p)?;
        let (value_type, p) = SaveString::read(data, p)?;
        let p = skip(data, p, 1)?;
        let (mode_type, p) = read_i32(data, p)?;
        let ghost kk = spec_property_kind(key_type@);
        let ghost vk = spec_property_kind(value_type@);
        if property_kind(&key_type).is_none() {
            return Err(Error::UnknownTag { offset: p });
        }
        if property_kind(&value_type).is_none() {
            return Err(Error::UnknownTag { offset: p });
        }
        let (count, p) = read_i32(data, p)?;
        if count < 0 {
            return Err(Error::LengthMismatch { offset: p });
        }
        let n: usize = count as usize;
        let mut elements: Vec<KVPair> = Vec::new();
        let mut cur: usize = p;
        let ghost p0 = p as int;
        let mut i: usize = 0;
        while i < n
            invariant
                pos < cur <= data@.len(),
                i <= n,
                kk == spec_property_kind(key_type@),
                vk == spec_property_kind(value_type@),
                kk is Some,
                vk is Some,
                spec_read_string(data@, pos + 8) matches Ok(kt) && key_type@ == kt.0 && (
                spec_read_string(data@, kt.1) matches Ok(vt) && value_type@ == vt.0 && n == sle32(
                    data@,
                    vt.1 + 5,
                )),
                spec_map_prop_end(data@, pos as int) == spec_pairs_end(
                    data@,
                    p0,
                    key_type@,
                    value_type@,
                    n as int,
                ),
                spec_pairs_end(data@, p0, key_type@, value_type@, n as int) == spec_pairs_end(
                    data@,
                    cur as int,
                    key_type@,
                    value_type@,
                    n - i,
                ),
                elements@.len() == i,
                forall|j: int| 0 <= j < i ==> elements@[j].key.kind() == kk->0,
                forall|j: int| 0 <= j < i ==> elements@[j].value.kind() == vk->0,
            decreases n - i,
        {
            let (key, np) = Property::read(data, cur, &key_type)?;
            let (value, np2) = Property::read(data, np, &value_type)?;
            elements.push(KVPair { key, value });
            cur = np2;
            i = i + 1;
        }
        Ok(
            (
                MapProperty {
                    size,
                    index,
                    key_type,
                    value_type,
                    mode_type,
                    elements: Array(elements),
                },
                cur,
            ),
        )
    }
}

impl StructProperty {
    /// Size, index, a struct-type tag, a fixed 17-byte pad that is not
    /// interpreted, then the typed payload selected by the tag.
    pub fn read(data: &Vec<u8>, pos: usize) -> (r: Result<(StructProperty, usize), Error>)
        requires
            pos <= data@.len(),
        ensures
            r matches Ok(x) ==> pos < x.1 <= data@.len(),
            r matches Ok(x) ==> (spec_read_string(data@, pos + 8) matches Ok(st)
                && x.0.struct_type@ == st.0),
            match spec_struct_prop_end(data@, pos as int) {
                Ok(end) => r matches Ok(x) && x.1 == end,
                Err(k) => r matches Err(e) && kind_of(e) == k,
            },
        decreases data@.len() - pos, 2int,
    {
        let (size, p) = read_i32(data, pos)?;
        let (index, p) = read_i32(data, p)?;
        let (struct_type, p) = SaveString::read(data, p)?;
        let p = skip(data, p, 17)?;
        let (typed_data, p2) = TypedData::read(data, p, &struct_type, true)?;
        Ok((StructProperty { size, index, struct_type, typed_data }, p2))
    }
}

impl TypedData {
    /// Decodes the payload selected by a struct-type tag: one of the
    /// built-in fixed shapes, or a nested property list for any unmatched
    /// tag.
    #[verifier::spinoff_prover]
    #[verifier::rlimit(100)]
    pub fn read(
        data: &Vec<u8>,
        pos: usize,
        struct_type: &SaveString,
        is_struct_property_payload: bool,
    ) -> (r: Result<(TypedData, usize), Error>)
        requires
            pos <= data@.len(),
        ensures
            r matches Ok(x) ==> pos < x.1 <= data@.len(),
            match spec_typed_data_end(data@, pos as int, struct_type@, is_struct_property_payload) {
                Ok(end) => r matches Ok(x) && x.1 == end,
                Err(k) => r matches Err(e) && kind_of(e) == k,
            },
            r matches Ok(x) ==> bytes_match(struct_type@, "Box".spec_bytes()) == (x.0 is Box),
            r matches Ok(x) ==> (x.0 is FluidBox ==> bytes_match(
                struct_type@,
                "FluidBox".spec_bytes(),
            )),
            r matches Ok(x) ==> (x.0 is InventoryItem ==> bytes_match(
                struct_type@,
                "InventoryItem".spec_bytes(),
            )),
            r matches Ok(x) ==> (x.0 is LinearColor ==> bytes_match(
                struct_type@,
                "LinearColor".spec_bytes(),
            )),
            r matches Ok(x) ==> (x.0 is Quat ==> bytes_match(struct_type@, "Quat".spec_bytes())),
            r matches Ok(x) ==> (x.0 is RailroadTrackPosition ==> bytes_match(
                struct_type@,
                "RailroadTrackPosition".spec_bytes(),
            )),
            r matches Ok(x) ==> (x.0 is Vector ==> bytes_match(
                struct_type@,
                "Vector".spec_bytes(),
            )),
            r matches Ok(x) ==> (x.0 is PropertyList ==> !bytes_match(
                struct_type@,
                "Box".spec_bytes(),
            ) && !bytes_match(struct_type@, "FluidBox".spec_bytes()) && !bytes_match(
                struct_type@,
                "InventoryItem".spec_bytes(),
            ) && !bytes_match(struct_type@, "LinearColor".spec_bytes()) && !bytes_match(
                struct_type@,
                "Quat".spec_bytes(),
            ) && !bytes_match(struct_type@, "RailroadTrackPosition".spec_bytes()) && !bytes_match(
                struct_type@,
                "Vector".spec_bytes(),
            )),
        decreases data@.len() - pos, 1int,
    {
        if matches_lit(struct_type, "Box") {
            let (min_x, p) = read_u32(data, pos)?;
            let (min_y, p) = read_u32(data, p)?;
            let (min_z, p) = read_u32(data, p)?;
            let (max_x, p) = read_u32(data, p)?;
            let (max_y, p) = read_u32(data, p)?;
            let (max_z, p) = read_u32(data, p)?;
            let (raw, p) = read_u32(data, p)?;
            Ok(
                (
                    TypedData::Box {
                        min_x,
                        min_y,
                        min_z,
                        max_x,
                        max_y,
                        max_z,
                        is_value: crate::adabool(raw),
                    },
                    p,
                ),
            )
        } else if matches_lit(struct_type, "FluidBox") {
            let (v, p) = read_u32(data, pos)?;
            Ok((TypedData::FluidBox(v), p))
        } else if matches_lit(struct_type, "InventoryItem") {
            let p = skip(data, pos, 4)?;
            let (item_type, p) = SaveString::read(data, p)?;
            let (level_name, p) = SaveString::read(data, p)?;
            let (path_name, p) = SaveString::read(data, p)?;
            if is_struct_property_payload {
                let (extra, p2) = IntProperty::read(data, p)?;
                Ok((TypedData::InventoryItem { item_type, level_name, path_name, extra }, p2))
            } else {
                Ok(
                    (
                        TypedData::InventoryItem {
                            item_type,
                            level_name,
                            path_name,
                            extra: IntProperty { size: 0, index: 0, value: 0 },
                        },
                        p,
                    ),
                )
            }
        } else if matches_lit(struct_type, "LinearColor") {
            let (cr, p) = read_u32(data, pos)?;
            let (cg, p) = read_u32(data, p)?;
            let (cb, p) = read_u32(data, p)?;
            let (ca, p) = read_u32(data, p)?;
            Ok((TypedData::LinearColor { r: cr, g: cg, b: cb, a: ca }, p))
        } else if matches_lit(struct_type, "Quat") {
            let (x, p) = read_u32(data, pos)?;
            let (y, p) = read_u32(data, p)?;
            let (z, p) = read_u32(data, p)?;
            let (w, p) = read_u32(data, p)?;
            Ok((TypedData::Quat { x, y, z, w }, p))
        } else if matches_lit(struct_type, "RailroadTrackPosition") {
            let (level_name, p) = SaveString::read(data, pos)?;
            let (path_name, p) = SaveString::read(data, p)?;
            let (offset, p) = read_u32(data, p)?;
            let (forward, p) = read_u32(data, p)?;
            Ok((TypedData::RailroadTrackPosition { level_name, path_name, offset, forward }, p))
        } else if matches_lit(struct_type, "Vector") {
            let (x, p) = read_u32(data, pos)?;
            let (y, p) = read_u32(data, p)?;
            let (z, p) = read_u32(data, p)?;
            Ok((TypedData::Vector { x, y, z }, p))
        } else {
            let (list, p) = PropertyList::read(data, pos)?;
            Ok((TypedData::PropertyList(list), p))
        }
    }
}

impl PropertyList {
    /// Reads properties until the sentinel: each entry is a name string and
    /// a type-tag string followed by the tagged payload. The list ends at
    /// the first property whose name is "None"; that sentinel is consumed
    /// and never appears in the result.
    pub fn read(data: &Vec<u8>, pos: usize) -> (r: Result<(PropertyList, usize), Error>)
        requires
            pos <= data@.len(),
        ensures
            r matches Ok(x) ==> pos < x.1 <= data@.len(),
            r matches Ok(x) ==> forall|i: int|
                0 <= i < x.0.0@.len() ==> !is_none_name(x.0.0@[i].0@),
            match spec_property_list_scan(data@, pos as int) {
                Ok(nv) => r matches Ok(x) && x.1 == nv.1 && x.0.0@.len() == nv.0.len() && (forall|
                    j: int,
                | 0 <= j < nv.0.len() ==> x.0.0@[j].0@ == nv.0[j]),
                Err(k) => r matches Err(e) && kind_of(e) == k,
            },
        decreases data@.len() - pos, 0int,
    {
        let mut items: Vec<(SaveString, Property)> = Vec::new();
        let ghost mut names: Seq<StringView> = Seq::empty();
        let mut cur: usize = pos;
        loop
            invariant
                pos <= cur <= data@.len(),
                names.len() == items@.len(),
                forall|i: int| 0 <= i < items@.len() ==> items@[i].0@ == names[i],
                forall|i: int| 0 <= i < items@.len() ==> !is_none_name(items@[i].0@),
                match spec_property_list_scan(data@, cur as int) {
                    Ok(nv) => spec_property_list_scan(data@, pos as int) == Ok::<
                        (Seq<StringView>, int),
                        ErrorKind,
                    >((names + nv.0, nv.1)),
                    Err(k) => spec_property_list_scan(data@, pos as int) == Err::<
                        (Seq<StringView>, int),
                        ErrorKind,
                    >(k),
                },
            decreases data@.len() - cur,
        {
            let (name, p) = SaveString::read(data, cur)?;
            if matches_lit(&name, "None") {
                proof {
                    assert(names + Seq::<StringView>::empty() =~= names);
                }
                return Ok((PropertyList(items), p));
            }
            let (tag, p2) = SaveString::read(data, p)?;
            let (prop, p3) = Property::read(data, p2, &tag)?;
            let ghost gname = name@;
            proof {
                if let Ok(nv) = spec_property_list_scan(data@, p3 as int) {
                    assert(names + (seq![gname] + nv.0) =~= (names + seq![gname]) + nv.0);
                }
                names = names + seq![gname];
            }
            items.push((name, prop));
            cur = p3;
        }
    }
}

} // verus!
