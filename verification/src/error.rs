use vstd::prelude::*;

verus! {

/// A decode failure. Every variant carries the byte offset of the field whose
/// decode failed; none of these are recovered locally, since the format has no
/// resynchronization markers.
#[derive(Debug, Clone, Copy, PartialEq, Eq, Structural)]
pub enum Error {
    /// End of input where more bytes were expected, mid-record.
    TruncatedInput { offset: usize },
    /// A declared string or sequence length disagrees with the actual data.
    LengthMismatch { offset: usize },
    /// An unrecognized property or struct type string.
    UnknownTag { offset: usize },
    /// A fixed-constant field holds an unexpected value.
    SizeAssertionFailed { offset: usize },
    /// A reassembled or duplicated size disagrees with its declared total.
    IntegrityMismatch { offset: usize },
    /// The compressed-stream transform rejected the bytes.
    DecompressionFailed { offset: usize },
}

/// The kind of a decode failure, without its positional context. Specification
/// mirrors of the decoders speak of kinds; the executable decoders attach the
/// offsets.
pub enum ErrorKind {
    Truncated,
    Mismatch,
    UnknownTag,
    BadConstant,
    Integrity,
    Decompress,
}

pub open spec fn kind_of(e: Error) -> ErrorKind {
    match e {
        Error::TruncatedInput { .. } => ErrorKind::Truncated,
        Error::LengthMismatch { .. } => ErrorKind::Mismatch,
        Error::UnknownTag { .. } => ErrorKind::UnknownTag,
        Error::SizeAssertionFailed { .. } => ErrorKind::BadConstant,
        Error::IntegrityMismatch { .. } => ErrorKind::Integrity,
        Error::DecompressionFailed { .. } => ErrorKind::Decompress,
    }
}

impl Error {
    /// The byte offset at which the decode failed.
    pub fn offset(&self) -> (r: usize)
        ensures
            r == self.spec_offset(),
    {
        match self {
            Error::TruncatedInput { offset } => *offset,
            Error::LengthMismatch { offset } => *offset,
            Error::UnknownTag { offset } => *offset,
            Error::SizeAssertionFailed { offset } => *offset,
            Error::IntegrityMismatch { offset } => *offset,
            Error::DecompressionFailed { offset } => *offset,
        }
    }

    pub open spec fn spec_offset(&self) -> usize {
        match self {
            Error::TruncatedInput { offset } => *offset,
            Error::LengthMismatch { offset } => *offset,
            Error::UnknownTag { offset } => *offset,
            Error::SizeAssertionFailed { offset } => *offset,
            Error::IntegrityMismatch { offset } => *offset,
            Error::DecompressionFailed { offset } => *offset,
        }
    }

    /// A short description of the failure, for callers that report it.
    pub fn describe(&self) -> String {
        match self {
            Error::TruncatedInput { .. } => String::from_str("input ends mid-record"),
            Error::LengthMismatch { .. } => String::from_str("declared length disagrees with data"),
            Error::UnknownTag { .. } => String::from_str("unrecognized type tag"),
            Error::SizeAssertionFailed { .. } => String::from_str("fixed-constant field has unexpected value"),
            Error::IntegrityMismatch { .. } => String::from_str("sizes disagree with declared totals"),
            Error::DecompressionFailed { .. } => String::from_str("compressed chunk rejected"),
        }
    }
}

} // verus!
