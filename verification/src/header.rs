//! The fixed-layout metadata header that opens a save file: a flat sequence
//! of primitive fields and strings with no recursion or dispatch.

use vstd::prelude::*;

use crate::bytes::{le32, read_bytes, read_i32, read_i64, read_i8, read_u32, sle32, sle64, sle8};
use crate::error::{kind_of, Error, ErrorKind};
use crate::strings::{spec_read_string, SaveString, StringView};

verus! {

/// The decoded metadata header.
#[derive(Debug)]
pub struct SaveFileHeader {
    pub save_header_version: i32,
    pub save_version: i32,
    pub build_version: i32,
    pub map_name: SaveString,
    pub map_options: SaveString,
    pub session_name: SaveString,
    pub play_duration_seconds: i32,
    pub save_date_time: i64,
    pub session_visibility: i8,
    pub editor_object_version: i32,
    pub mod_metadata: SaveString,
    pub is_modded_save: bool,
    pub save_identifier: SaveString,
    pub is_partitioned_world: bool,
    pub md5_hash: Vec<u8>,
    pub is_creative_mode_enabled: bool,
}

/// The mathematical value of the metadata header.
pub struct SaveFileHeaderView {
    pub save_header_version: int,
    pub save_version: int,
    pub build_version: int,
    pub map_name: StringView,
    pub map_options: StringView,
    pub session_name: StringView,
    pub play_duration_seconds: int,
    pub save_date_time: int,
    pub session_visibility: int,
    pub editor_object_version: int,
    pub mod_metadata: StringView,
    pub is_modded_save: bool,
    pub save_identifier: StringView,
    pub is_partitioned_world: bool,
    pub md5_hash: Seq<u8>,
    pub is_creative_mode_enabled: bool,
}

impl View for SaveFileHeader {
    type V = SaveFileHeaderView;

    open spec fn view(&self) -> SaveFileHeaderView {
        SaveFileHeaderView {
            save_header_version: self.save_header_version as int,
            save_version: self.save_version as int,
            build_version: self.build_version as int,
            map_name: self.map_name@,
            map_options: self.map_options@,
            session_name: self.session_name@,
            play_duration_seconds: self.play_duration_seconds as int,
            save_date_time: self.save_date_time as int,
            session_visibility: self.session_visibility as int,
            editor_object_version: self.editor_object_version as int,
            mod_metadata: self.mod_metadata@,
            is_modded_save: self.is_modded_save,
            save_identifier: self.save_identifier@,
            is_partitioned_world: self.is_partitioned_world,
            md5_hash: self.md5_hash@,
            is_creative_mode_enabled: self.is_creative_mode_enabled,
        }
    }
}

/// What decoding the metadata header at offset `i` of `s` yields: every
/// field in layout order, or the kind of the first failure.
#[verifier::opaque]
pub open spec fn spec_read_header(s: Seq<u8>, i: int) -> Result<
    (SaveFileHeaderView, int),
    ErrorKind,
> {
    if i + 12 > s.len() {
        Err(ErrorKind::Truncated)
    } else {
        match spec_read_string(s, i + 12) {
            Err(k) => Err(k),
            Ok((map_name, p1)) => match spec_read_string(s, p1) {
                Err(k) => Err(k),
                Ok((map_options, p2)) => match spec_read_string(s, p2) {
                    Err(k) => Err(k),
                    Ok((session_name, p3)) => if p3 + 17 > s.len() {
                        Err(ErrorKind::Truncated)
                    } else {
                        match spec_read_string(s, p3 + 17) {
                            Err(k) => Err(k),
                            Ok((mod_metadata, p4)) => if p4 + 4 > s.len() {
                                Err(ErrorKind::Truncated)
                            } else {
                                match spec_read_string(s, p4 + 4) {
                                    Err(k) => Err(k),
                                    Ok((save_identifier, p5)) => if p5 + 28 > s.len() {
                                        Err(ErrorKind::Truncated)
                                    } else {
                                        Ok(
                                            (
                                                SaveFileHeaderView {
                                                    save_header_version: sle32(s, i),
                                                    save_version: sle32(s, i + 4),
                                                    build_version: sle32(s, i + 8),
                                                    map_name,
                                                    map_options,
                                                    session_name,
                                                    play_duration_seconds: sle32(s, p3),
                                                    save_date_time: sle64(s, p3 + 4),
                                                    session_visibility: sle8(s, p3 + 12),
                                                    editor_object_version: sle32(s, p3 + 13),
                                                    mod_metadata,
                                                    is_modded_save: le32(s, p4) != 0,
                                                    save_identifier,
                                                    is_partitioned_world: le32(s, p5) != 0,
                                                    md5_hash: s.subrange(p5 + 4, p5 + 24),
                                                    is_creative_mode_enabled: le32(s, p5 + 24)
                                                        != 0,
                                                },
                                                p5 + 28,
                                            ),
                                        )
                                    },
                                }
                            },
                        }
                    },
                },
            },
        }
    }
}

impl SaveFileHeader {
    /// Decodes the metadata header and returns it with the position just
    /// past its last field.
    #[verifier::spinoff_prover]
    #[verifier::rlimit(100)]
    pub fn read(data: &Vec<u8>, pos: usize) -> (r: Result<(SaveFileHeader, usize), Error>)
        requires
            pos <= data@.len(),
        ensures
            match spec_read_header(data@, pos as int) {
                Ok(vp) => r matches Ok(x) && x.0@ == vp.0 && x.1 == vp.1,
                Err(k) => r matches Err(e) && kind_of(e) == k,
            },
            r matches Ok(x) ==> pos < x.1 <= data@.len(),
    {
        proof {
            reveal(spec_read_header);
        }
        let (save_header_version, p) = read_i32(data, pos)?;
        let (save_version, p) = read_i32(data, p)?;
        let (build_version, p) = read_i32(data, p)?;
        let (map_name, p) = SaveString::read(data, p)?;
        let (map_options, p) = SaveString::read(data, p)?;
        let (session_name, p3) = SaveString::read(data, p)?;
        let (play_duration_seconds, p) = read_i32(data, p3)?;
        let (save_date_time, p) = read_i64(data, p)?;
        let (session_visibility, p) = read_i8(data, p)?;
        let (editor_object_version, p) = read_i32(data, p)?;
        let (mod_metadata, p4) = SaveString::read(data, p)?;
        let (modded_raw, p) = read_u32(data, p4)?;
        let (save_identifier, p5) = SaveString::read(data, p)?;
        let (partitioned_raw, p) = read_u32(data, p5)?;
        let (md5_hash, p) = read_bytes(data, p, 20)?;
        let (creative_raw, p) = read_u32(data, p)?;
        Ok(
            (
                SaveFileHeader {
                    save_header_version,
                    save_version,
                    build_version,
                    map_name,
                    map_options,
                    session_name,
                    play_duration_seconds,
                    save_date_time,
                    session_visibility,
                    editor_object_version,
                    mod_metadata,
                    is_modded_save: crate::adabool(modded_raw),
                    save_identifier,
                    is_partitioned_world: crate::adabool(partitioned_raw),
                    md5_hash,
                    is_creative_mode_enabled: crate::adabool(creative_raw),
                },
                p,
            ),
        )
    }
}

} // verus!
