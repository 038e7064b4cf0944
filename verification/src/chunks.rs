//! The compressed-chunk transport: one record per chunk (magic, sizes,
//! compressed payload), and a reassembly step that decompresses each chunk
//! independently and concatenates the results, in order, into the logical
//! body byte stream.

use vstd::prelude::*;

use crate::bytes::{le32, read_bytes, read_i64, read_u32, read_u8, sle64};
use crate::error::{kind_of, Error, ErrorKind};

verus! {

/// The fixed magic constant opening every chunk record.
pub const CHUNK_MAGIC: u32 = 0x9E2A83C1;

/// The only accepted declared maximum chunk size.
pub const MAX_CHUNK_SIZE: i64 = 131072;

/// The archive-header value whose records carry a compression-algorithm tag.
pub const TAGGED_ARCHIVE_HEADER: u32 = 0x22222222;

/// The only accepted compression-algorithm tag (zlib).
pub const ZLIB_COMPRESSOR: u8 = 3;

/// One compressed body chunk record.
#[derive(Debug, Clone)]
pub struct CompressedSaveFileBody {
    pub archive_header: u32,
    pub max_chunk_size: i64,
    /// Present in the stream only for the tagged archive header; zero
    /// otherwise.
    pub compressor_num: u8,
    pub compressed_size_summary: i64,
    pub uncompressed_size_summary: i64,
    pub compressed_size: i64,
    pub uncompressed_size: i64,
    pub chunk_bytes: Vec<u8>,
}

/// The mathematical value of a chunk record.
pub struct ChunkView {
    pub archive_header: u32,
    pub max_chunk_size: i64,
    pub compressor_num: u8,
    pub compressed_size_summary: i64,
    pub uncompressed_size_summary: i64,
    pub compressed_size: i64,
    pub uncompressed_size: i64,
    pub chunk_bytes: Seq<u8>,
}

impl View for CompressedSaveFileBody {
    type V = ChunkView;

    open spec fn view(&self) -> ChunkView {
        ChunkView {
            archive_header: self.archive_header,
            max_chunk_size: self.max_chunk_size,
            compressor_num: self.compressor_num,
            compressed_size_summary: self.compressed_size_summary,
            uncompressed_size_summary: self.uncompressed_size_summary,
            compressed_size: self.compressed_size,
            uncompressed_size: self.uncompressed_size,
            chunk_bytes: self.chunk_bytes@,
        }
    }
}

/// The fixed-layout front of a chunk record: everything before the payload.
#[derive(Debug, Clone, Copy, PartialEq, Eq, Structural)]
pub struct ChunkHead {
    pub archive_header: u32,
    pub compressor_num: u8,
    pub compressed_size_summary: i64,
    pub uncompressed_size_summary: i64,
    pub compressed_size: i64,
    pub uncompressed_size: i64,
}

/// What decoding the front of a chunk record at offset `i` of `s` yields:
/// the fixed fields and the position where the payload starts. The magic,
/// the declared maximum chunk size and the optional compressor tag are
/// checked before any size field is touched; the duplicated size fields are
/// cross-checked against each other.
#[verifier::opaque]
pub open spec fn spec_read_chunk_head(s: Seq<u8>, i: int) -> Result<(ChunkHead, int), ErrorKind> {
    if i + 4 > s.len() {
        Err(ErrorKind::Truncated)
    } else if le32(s, i) != CHUNK_MAGIC {
        Err(ErrorKind::BadConstant)
    } else if i + 16 > s.len() {
        Err(ErrorKind::Truncated)
    } else if sle64(s, i + 8) != MAX_CHUNK_SIZE {
        Err(ErrorKind::BadConstant)
    } else {
        let ah = le32(s, i + 4) as u32;
        let tagged = ah == TAGGED_ARCHIVE_HEADER;
        if tagged && i + 17 > s.len() {
            Err(ErrorKind::Truncated)
        } else if tagged && s[i + 16] != ZLIB_COMPRESSOR {
            Err(ErrorKind::BadConstant)
        } else {
            let q = if tagged {
                i + 17
            } else {
                i + 16
            };
            if q + 32 > s.len() {
                Err(ErrorKind::Truncated)
            } else {
                let css = sle64(s, q);
                let uss = sle64(s, q + 8);
                let cs = sle64(s, q + 16);
                let us = sle64(s, q + 24);
                if css != cs || uss != us {
                    Err(ErrorKind::Integrity)
                } else if cs < 0 {
                    Err(ErrorKind::Mismatch)
                } else {
                    Ok(
                        (
                            ChunkHead {
                                archive_header: ah,
                                compressor_num: if tagged {
                                    s[i + 16]
                                } else {
                                    0
                                },
                                compressed_size_summary: css as i64,
                                uncompressed_size_summary: uss as i64,
                                compressed_size: cs as i64,
                                uncompressed_size: us as i64,
                            },
                            q + 32,
                        ),
                    )
                }
            }
        }
    }
}

/// What decoding a whole chunk record at offset `i` of `s` yields: the fixed
/// fields, then exactly `compressed_size` payload bytes.
pub open spec fn spec_read_chunk(s: Seq<u8>, i: int) -> Result<(ChunkView, int), ErrorKind> {
    match spec_read_chunk_head(s, i) {
        Err(k) => Err(k),
        Ok((h, q)) => if q + h.compressed_size > s.len() {
            Err(ErrorKind::Truncated)
        } else {
            Ok(
                (
                    ChunkView {
                        archive_header: h.archive_header,
                        max_chunk_size: MAX_CHUNK_SIZE,
                        compressor_num: h.compressor_num,
                        compressed_size_summary: h.compressed_size_summary,
                        uncompressed_size_summary: h.uncompressed_size_summary,
                        compressed_size: h.compressed_size,
                        uncompressed_size: h.uncompressed_size,
                        chunk_bytes: s.subrange(q, q + h.compressed_size),
                    },
                    q + h.compressed_size,
                ),
            )
        },
    }
}

/// Decodes the fixed front of a chunk record.
#[verifier::spinoff_prover]
#[verifier::rlimit(100)]
fn read_chunk_head(data: &Vec<u8>, pos: usize) -> (r: Result<(ChunkHead, usize), Error>)
    requires
        pos <= data@.len(),
    ensures
        match spec_read_chunk_head(data@, pos as int) {
            Ok(hp) => r matches Ok(x) && x.0 == hp.0 && x.1 == hp.1 && pos < x.1 <= data@.len(),
            Err(k) => r matches Err(e) && kind_of(e) == k,
        },
        r matches Ok(x) ==> x.0.compressed_size >= 0,
{
    proof {
        reveal(spec_read_chunk_head);
    }
    let (magic, p) = read_u32(data, pos)?;
    if magic != CHUNK_MAGIC {
        return Err(Error::SizeAssertionFailed { offset: pos });
    }
    let (ah, p) = read_u32(data, p)?;
    let (mcs, p) = read_i64(data, p)?;
    if mcs != MAX_CHUNK_SIZE {
        return Err(Error::SizeAssertionFailed { offset: pos + 8 });
    }
    let tagged = ah == TAGGED_ARCHIVE_HEADER;
    let mut compressor: u8 = 0;
    let mut q: usize = p;
    if tagged {
        let (c, p2) = read_u8(data, p)?;
        if c != ZLIB_COMPRESSOR {
            return Err(Error::SizeAssertionFailed { offset: p });
        }
        compressor = c;
        q = p2;
    }
    let (css, q2) = read_i64(data, q)?;
    let (uss, q3) = read_i64(data, q2)?;
    let (cs, q4) = read_i64(data, q3)?;
    let (us, q5) = read_i64(data, q4)?;
    if css != cs || uss != us {
        return Err(Error::IntegrityMismatch { offset: q });
    }
    if cs < 0 {
        return Err(Error::LengthMismatch { offset: q });
    }
    Ok(
        (
            ChunkHead {
                archive_header: ah,
                compressor_num: compressor,
                compressed_size_summary: css,
                uncompressed_size_summary: uss,
                compressed_size: cs,
                uncompressed_size: us,
            },
            q5,
        ),
    )
}

impl CompressedSaveFileBody {
    /// Decodes one chunk record and returns it with the position just past
    /// its payload.
    pub fn read(data: &Vec<u8>, pos: usize) -> (r: Result<(CompressedSaveFileBody, usize), Error>)
        requires
            pos <= data@.len(),
        ensures
            match spec_read_chunk(data@, pos as int) {
                Ok(vp) => r matches Ok(x) && x.0@ == vp.0 && x.1 == vp.1,
                Err(k) => r matches Err(e) && kind_of(e) == k,
            },
            r matches Ok(x) ==> pos < x.1 <= data@.len(),
    {
        let (head, q) = read_chunk_head(data, pos)?;
        let rem: usize = data.len() - q;
        if (rem as u64) < (head.compressed_size as u64) {
            return Err(Error::TruncatedInput { offset: q });
        }
        let csu: usize = head.compressed_size as usize;
        let (payload, q2) = read_bytes(data, q, csu)?;
        Ok(
            (
                CompressedSaveFileBody {
                    archive_header: head.archive_header,
                    max_chunk_size: MAX_CHUNK_SIZE,
                    compressor_num: head.compressor_num,
                    compressed_size_summary: head.compressed_size_summary,
                    uncompressed_size_summary: head.uncompressed_size_summary,
                    compressed_size: head.compressed_size,
                    uncompressed_size: head.uncompressed_size,
                    chunk_bytes: payload,
                },
                q2,
            ),
        )
    }
}

/// What the zlib transform yields for a self-contained compressed stream:
/// the decompressed bytes, or nothing when the stream is truncated or
/// corrupt.
pub uninterp spec fn zlib_inflate_spec(data: Seq<u8>) -> Option<Seq<u8>>;

/// Relies on miniz_oxide::inflate::decompress_to_vec_zlib: the result depends
/// on the compressed bytes alone, and a truncated or corrupt stream is
/// rejected.
#[verifier::external_body]
fn zlib_inflate(data: &Vec<u8>) -> (r: Option<Vec<u8>>)
    ensures
        match r {
            Some(v) => zlib_inflate_spec(data@) == Some(v@),
            None => zlib_inflate_spec(data@) is None,
        },
{
    miniz_oxide::inflate::decompress_to_vec_zlib(data.as_slice()).ok()
}

/// The chunk records from offset `i` to the exact end of the input, or why
/// collecting them fails: end of input at a record boundary ends the run.
pub open spec fn spec_read_chunks(s: Seq<u8>, i: int) -> Result<Seq<ChunkView>, ErrorKind>
    decreases s.len() - i,
{
    if i == s.len() {
        Ok(Seq::empty())
    } else if i > s.len() {
        Err(ErrorKind::Truncated)
    } else {
        match spec_read_chunk(s, i) {
            Err(k) => Err(k),
            Ok((c, j)) => if i < j <= s.len() {
                match spec_read_chunks(s, j) {
                    Err(k) => Err(k),
                    Ok(rest) => Ok(seq![c] + rest),
                }
            } else {
                Err(ErrorKind::Truncated)
            },
        }
    }
}

/// The views of a sequence of chunk records.
pub open spec fn chunk_views(chunks: Seq<CompressedSaveFileBody>) -> Seq<ChunkView> {
    chunks.map_values(|c: CompressedSaveFileBody| c@)
}

/// The sum of the declared uncompressed sizes of a chunk sequence.
pub open spec fn sum_uncompressed(chunks: Seq<ChunkView>) -> int
    decreases chunks.len(),
{
    if chunks.len() == 0 {
        0
    } else {
        sum_uncompressed(chunks.drop_last()) + chunks.last().uncompressed_size
    }
}

/// What reassembling a chunk sequence yields: each chunk's payload
/// decompressed independently, checked against its declared uncompressed
/// size, and concatenated in order.
pub open spec fn spec_reassemble(chunks: Seq<ChunkView>) -> Result<Seq<u8>, ErrorKind>
    decreases chunks.len(),
{
    if chunks.len() == 0 {
        Ok(Seq::empty())
    } else {
        match spec_reassemble(chunks.drop_last()) {
            Ok(acc) => match zlib_inflate_spec(chunks.last().chunk_bytes) {
                Some(d) => if d.len() == chunks.last().uncompressed_size {
                    Ok(acc + d)
                } else {
                    Err(ErrorKind::Integrity)
                },
                None => Err(ErrorKind::Decompress),
            },
            Err(k) => Err(k),
        }
    }
}

/// A successful reassembly is exactly as long as the sum of the declared
/// uncompressed sizes; any disagreement between a chunk's decompressed length
/// and its declared size fails reassembly instead of being truncated or
/// padded over.
pub proof fn lemma_reassemble_length(chunks: Seq<ChunkView>)
    ensures
        spec_reassemble(chunks) matches Ok(b) ==> b.len() == sum_uncompressed(chunks),
    decreases chunks.len(),
{
    if chunks.len() > 0 {
        lemma_reassemble_length(chunks.drop_last());
    }
}

/// Decompresses every chunk and concatenates the results in order. Fails
/// with `DecompressionFailed` when a chunk's bytes are rejected and with
/// `IntegrityMismatch` when a chunk's decompressed length disagrees with its
/// declared uncompressed size; on success the result's length equals the sum
/// of the declared uncompressed sizes.
pub fn reassemble(chunks: &Vec<CompressedSaveFileBody>) -> (r: Result<Vec<u8>, Error>)
    ensures
        match spec_reassemble(chunk_views(chunks@)) {
            Ok(b) => r matches Ok(v) && v@ == b,
            Err(k) => r matches Err(e) && kind_of(e) == k,
        },
        r matches Ok(v) ==> v@.len() == sum_uncompressed(chunk_views(chunks@)),
{
    let mut out: Vec<u8> = Vec::new();
    let mut i: usize = 0;
    let n: usize = chunks.len();
    while i < n
        invariant
            n == chunks@.len(),
            i <= n,
            spec_reassemble(chunk_views(chunks@).take(i as int)) == Ok::<Seq<u8>, ErrorKind>(
                out@,
            ),
        decreases n - i,
    {
        let ghost prefix = chunk_views(chunks@).take(i as int + 1);
        proof {
            assert(prefix.drop_last() =~= chunk_views(chunks@).take(i as int));
            assert(prefix.last() == chunks@[i as int]@);
        }
        let chunk = &chunks[i];
        match zlib_inflate(&chunk.chunk_bytes) {
            None => {
                proof {
                    assert(chunk_views(chunks@).take(i as int + 1) =~= chunk_views(
                        chunks@,
                    ).take(i as int + 1));
                    lemma_take_is_prefix_of_whole(chunk_views(chunks@), i as int + 1);
                }
                return Err(Error::DecompressionFailed { offset: i });
            },
            Some(mut d) => {
                let ok = if chunk.uncompressed_size < 0 {
                    false
                } else {
                    (d.len() as u64) == (chunk.uncompressed_size as u64)
                };
                if !ok {
                    proof {
                        lemma_take_is_prefix_of_whole(chunk_views(chunks@), i as int + 1);
                    }
                    return Err(Error::IntegrityMismatch { offset: i });
                }
                out.append(&mut d);
                i = i + 1;
            },
        }
    }
    proof {
        assert(chunk_views(chunks@).take(n as int) =~= chunk_views(chunks@));
        lemma_reassemble_length(chunk_views(chunks@));
    }
    Ok(out)
}

/// If reassembly of a prefix fails, reassembly of the whole sequence fails
/// with the same kind.
proof fn lemma_take_is_prefix_of_whole(chunks: Seq<ChunkView>, k: int)
    requires
        0 <= k <= chunks.len(),
        spec_reassemble(chunks.take(k)) is Err,
    ensures
        spec_reassemble(chunks) == spec_reassemble(chunks.take(k)),
    decreases chunks.len() - k,
{
    if k < chunks.len() {
        assert(chunks.take(k + 1).drop_last() =~= chunks.take(k));
        lemma_take_is_prefix_of_whole(chunks, k + 1);
    } else {
        assert(chunks.take(k) =~= chunks);
    }
}

} // verus!
