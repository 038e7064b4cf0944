//! Little-endian primitive readers over a byte cursor: a borrowed byte vector
//! and a position. Each reader returns the decoded value and the new position,
//! or `TruncatedInput` when the bytes run out.

use vstd::prelude::*;

use crate::error::Error;

verus! {

/// The unsigned 16-bit value encoded little-endian at `i`.
pub open spec fn le16(s: Seq<u8>, i: int) -> int {
    s[i] + 0x100 * s[i + 1]
}

/// The unsigned 32-bit value encoded little-endian at `i`.
pub open spec fn le32(s: Seq<u8>, i: int) -> int {
    s[i] + 0x100 * s[i + 1] + 0x1_0000 * s[i + 2] + 0x100_0000 * s[i + 3]
}

/// The unsigned 64-bit value encoded little-endian at `i`.
pub open spec fn le64(s: Seq<u8>, i: int) -> int {
    le32(s, i) + 0x1_0000_0000 * le32(s, i + 4)
}

/// The signed (two's complement) 8-bit value of the byte at `i`.
pub open spec fn sle8(s: Seq<u8>, i: int) -> int {
    if s[i] >= 0x80 {
        s[i] - 0x100
    } else {
        s[i] as int
    }
}

/// The signed (two's complement) 32-bit value encoded little-endian at `i`.
pub open spec fn sle32(s: Seq<u8>, i: int) -> int {
    if le32(s, i) >= 0x8000_0000 {
        le32(s, i) - 0x1_0000_0000
    } else {
        le32(s, i)
    }
}

/// The signed (two's complement) 64-bit value encoded little-endian at `i`.
pub open spec fn sle64(s: Seq<u8>, i: int) -> int {
    if le64(s, i) >= 0x8000_0000_0000_0000 {
        le64(s, i) - 0x1_0000_0000_0000_0000
    } else {
        le64(s, i)
    }
}

pub fn read_u8(data: &Vec<u8>, pos: usize) -> (r: Result<(u8, usize), Error>)
    requires
        pos <= data@.len(),
    ensures
        pos + 1 <= data@.len() ==> (r matches Ok(x) && x.0 == data@[pos as int] && x.1 == pos + 1),
        pos + 1 > data@.len() ==> (r matches Err(e) && e is TruncatedInput),
{
    if data.len() - pos >= 1 {
        Ok((data[pos], pos + 1))
    } else {
        Err(Error::TruncatedInput { offset: pos })
    }
}

pub fn read_i8(data: &Vec<u8>, pos: usize) -> (r: Result<(i8, usize), Error>)
    requires
        pos <= data@.len(),
    ensures
        pos + 1 <= data@.len() ==> (r matches Ok(x) && x.0 == sle8(data@, pos as int) && x.1 == pos
            + 1),
        pos + 1 > data@.len() ==> (r matches Err(e) && e is TruncatedInput),
{
    if data.len() - pos >= 1 {
        let b = data[pos];
        let v: i16 = b as i16 - (if b >= 0x80 {
            0x100i16
        } else {
            0i16
        });
        Ok((v as i8, pos + 1))
    } else {
        Err(Error::TruncatedInput { offset: pos })
    }
}

pub fn read_u16(data: &Vec<u8>, pos: usize) -> (r: Result<(u16, usize), Error>)
    requires
        pos <= data@.len(),
    ensures
        pos + 2 <= data@.len() ==> (r matches Ok(x) && x.0 == le16(data@, pos as int) && x.1 == pos
            + 2),
        pos + 2 > data@.len() ==> (r matches Err(e) && e is TruncatedInput),
{
    if data.len() - pos >= 2 {
        let v: u16 = data[pos] as u16 + 0x100u16 * data[pos + 1] as u16;
        Ok((v, pos + 2))
    } else {
        Err(Error::TruncatedInput { offset: pos })
    }
}

pub fn read_u32(data: &Vec<u8>, pos: usize) -> (r: Result<(u32, usize), Error>)
    requires
        pos <= data@.len(),
    ensures
        pos + 4 <= data@.len() ==> (r matches Ok(x) && x.0 == le32(data@, pos as int) && x.1 == pos
            + 4),
        pos + 4 > data@.len() ==> (r matches Err(e) && e is TruncatedInput),
{
    if data.len() - pos >= 4 {
        let v: u32 = data[pos] as u32 + 0x100u32 * data[pos + 1] as u32 + 0x1_0000u32 * data[pos
            + 2] as u32 + 0x100_0000u32 * data[pos + 3] as u32;
        Ok((v, pos + 4))
    } else {
        Err(Error::TruncatedInput { offset: pos })
    }
}

pub fn read_i32(data: &Vec<u8>, pos: usize) -> (r: Result<(i32, usize), Error>)
    requires
        pos <= data@.len(),
    ensures
        pos + 4 <= data@.len() ==> (r matches Ok(x) && x.0 == sle32(data@, pos as int) && x.1 == pos
            + 4),
        pos + 4 > data@.len() ==> (r matches Err(e) && e is TruncatedInput),
{
    match read_u32(data, pos) {
        Ok((u, p)) => {
            let v: i64 = u as i64 - (if u >= 0x8000_0000u32 {
                0x1_0000_0000i64
            } else {
                0i64
            });
            Ok((v as i32, p))
        },
        Err(e) => Err(e),
    }
}

pub fn read_u64(data: &Vec<u8>, pos: usize) -> (r: Result<(u64, usize), Error>)
    requires
        pos <= data@.len(),
    ensures
        pos + 8 <= data@.len() ==> (r matches Ok(x) && x.0 == le64(data@, pos as int) && x.1 == pos
            + 8),
        pos + 8 > data@.len() ==> (r matches Err(e) && e is TruncatedInput),
{
    if data.len() - pos >= 8 {
        let lo: u64 = data[pos] as u64 + 0x100u64 * data[pos + 1] as u64 + 0x1_0000u64 * data[pos
            + 2] as u64 + 0x100_0000u64 * data[pos + 3] as u64;
        let hi: u64 = data[pos + 4] as u64 + 0x100u64 * data[pos + 5] as u64 + 0x1_0000u64
            * data[pos + 6] as u64 + 0x100_0000u64 * data[pos + 7] as u64;
        let v: u64 = lo + 0x1_0000_0000u64 * hi;
        Ok((v, pos + 8))
    } else {
        Err(Error::TruncatedInput { offset: pos })
    }
}

pub fn read_i64(data: &Vec<u8>, pos: usize) -> (r: Result<(i64, usize), Error>)
    requires
        pos <= data@.len(),
    ensures
        pos + 8 <= data@.len() ==> (r matches Ok(x) && x.0 == sle64(data@, pos as int) && x.1 == pos
            + 8),
        pos + 8 > data@.len() ==> (r matches Err(e) && e is TruncatedInput),
{
    match read_u64(data, pos) {
        Ok((u, p)) => {
            let v: i128 = u as i128 - (if u >= 0x8000_0000_0000_0000u64 {
                0x1_0000_0000_0000_0000i128
            } else {
                0i128
            });
            Ok((v as i64, p))
        },
        Err(e) => Err(e),
    }
}

/// Reads exactly `n` raw bytes.
pub fn read_bytes(data: &Vec<u8>, pos: usize, n: usize) -> (r: Result<(Vec<u8>, usize), Error>)
    requires
        pos <= data@.len(),
    ensures
        pos + n <= data@.len() ==> (r matches Ok(x) && x.0@ == data@.subrange(
            pos as int,
            pos + n,
        ) && x.1 == pos + n),
        pos + n > data@.len() ==> (r matches Err(e) && e is TruncatedInput),
{
    if data.len() - pos >= n {
        let len: usize = data.len();
        let mut out: Vec<u8> = Vec::new();
        let mut i: usize = 0;
        while i < n
            invariant
                len == data@.len(),
                pos + n <= len,
                i <= n,
                out@ == data@.subrange(pos as int, pos + i),
            decreases n - i,
        {
            out.push(data[pos + i]);
            i = i + 1;
            proof {
                assert(out@ =~= data@.subrange(pos as int, pos + i));
            }
        }
        Ok((out, pos + n))
    } else {
        Err(Error::TruncatedInput { offset: pos })
    }
}

/// Skips `n` padding bytes without interpreting them.
pub fn skip(data: &Vec<u8>, pos: usize, n: usize) -> (r: Result<usize, Error>)
    requires
        pos <= data@.len(),
    ensures
        pos + n <= data@.len() ==> (r matches Ok(p) && p == pos + n),
        pos + n > data@.len() ==> (r matches Err(e) && e is TruncatedInput),
{
    if data.len() - pos >= n {
        Ok(pos + n)
    } else {
        Err(Error::TruncatedInput { offset: pos })
    }
}

} // verus!
