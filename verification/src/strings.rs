//! The self-describing variable-length text encoding: a 4-byte signed length
//! prefix selects the form. Zero means an empty string; a positive value `n`
//! means `n` UTF-8 bytes followed by one null byte; a negative value `-m`
//! means `m` UTF-16 code units followed by two null bytes. A payload whose
//! terminator-inclusive length disagrees with the prefix is a hard
//! `LengthMismatch` failure.

use vstd::prelude::*;

use crate::bytes::{le16, read_i32, sle32};
use crate::error::{kind_of, Error, ErrorKind};

verus! {

use crate::bytes::le32;
use vstd::arithmetic::div_mod::{lemma_basic_div, lemma_div_denominator, lemma_fundamental_div_mod};
use vstd::string::StringSliceAdditionalSpecFns;

/// The mathematical value of a decoded string: the form tag and the payload,
/// without its length prefix or terminator.
pub enum StringView {
    Empty,
    Utf8(Seq<u8>),
    Utf16(Seq<u16>),
}

/// A decoded string of the save format, in one of its three forms.
#[derive(Debug, Clone, Default, PartialEq, Eq, Hash)]
pub enum SaveString {
    #[default]
    Empty,
    UTF8(Vec<u8>),
    UTF16(Vec<u16>),
}

impl View for SaveString {
    type V = StringView;

    open spec fn view(&self) -> StringView {
        match self {
            SaveString::Empty => StringView::Empty,
            SaveString::UTF8(v) => StringView::Utf8(v@),
            SaveString::UTF16(v) => StringView::Utf16(v@),
        }
    }
}

/// The `m` UTF-16 code units whose little-endian bytes start at `i + 4` in `s`.
pub open spec fn utf16_units(s: Seq<u8>, i: int, m: int) -> Seq<u16> {
    Seq::new(m as nat, |j: int| le16(s, i + 4 + 2 * j) as u16)
}

/// What decoding a string at offset `i` of `s` yields: the value and the
/// position after its terminator, or the kind of failure.
pub open spec fn spec_read_string(s: Seq<u8>, i: int) -> Result<(StringView, int), ErrorKind> {
    if i + 4 > s.len() {
        Err(ErrorKind::Truncated)
    } else {
        let n = sle32(s, i);
        if n == 0 {
            Ok((StringView::Empty, i + 4))
        } else if n > 0 {
            if i + 4 + n + 1 > s.len() {
                Err(ErrorKind::Truncated)
            } else if (exists|j: int| i + 4 <= j < i + 4 + n && s[j] == 0) || s[i + 4 + n] != 0 {
                Err(ErrorKind::Mismatch)
            } else {
                Ok((StringView::Utf8(s.subrange(i + 4, i + 4 + n)), i + 4 + n + 1))
            }
        } else {
            let m = -n;
            if i + 4 + 2 * m + 2 > s.len() {
                Err(ErrorKind::Truncated)
            } else {
                let units = utf16_units(s, i, m);
                if (exists|j: int| 0 <= j < m && units[j] == 0) || le16(s, i + 4 + 2 * m) != 0 {
                    Err(ErrorKind::Mismatch)
                } else {
                    Ok((StringView::Utf16(units), i + 4 + 2 * m + 2))
                }
            }
        }
    }
}

impl SaveString {
    /// Decodes one length-prefixed string and returns it with the position
    /// just past its terminator.
    pub fn read(data: &Vec<u8>, pos: usize) -> (r: Result<(SaveString, usize), Error>)
        requires
            pos <= data@.len(),
        ensures
            match spec_read_string(data@, pos as int) {
                Ok(vp) => r matches Ok(x) && x.0@ == vp.0 && x.1 == vp.1,
                Err(k) => r matches Err(e) && kind_of(e) == k,
            },
    {
        let (n, p4) = match read_i32(data, pos) {
            Ok(x) => x,
            Err(e) => {
                return Err(e);
            },
        };
        if n == 0 {
            return Ok((SaveString::Empty, p4));
        }
        let len: usize = data.len();
        if n > 0 {
            let nu: usize = n as usize;
            if len - p4 < nu + 1 {
                return Err(Error::TruncatedInput { offset: pos });
            }
            let mut out: Vec<u8> = Vec::new();
            let mut j: usize = 0;
            while j < nu
                invariant
                    len == data@.len(),
                    p4 == pos + 4,
                    nu == sle32(data@, pos as int),
                    p4 + nu + 1 <= len,
                    j <= nu,
                    out@ == data@.subrange(p4 as int, p4 + j),
                    forall|k: int| p4 <= k < p4 + j ==> data@[k] != 0,
                decreases nu - j,
            {
                let b = data[p4 + j];
                if b == 0 {
                    proof {
                        let i = pos as int;
                        let w = i + 4 + (j as int);
                        assert(i + 4 <= w < i + 4 + sle32(data@, i));
                        assert(data@[w] == 0);
                        assert(exists|k: int|
                            i + 4 <= k < i + 4 + sle32(data@, i) && data@[k] == 0);
                    }
                    return Err(Error::LengthMismatch { offset: pos });
                }
                out.push(b);
                j = j + 1;
                proof {
                    assert(out@ =~= data@.subrange(p4 as int, p4 + j));
                }
            }
            if data[p4 + nu] != 0 {
                return Err(Error::LengthMismatch { offset: pos });
            }
            return Ok((SaveString::UTF8(out), p4 + nu + 1));
        }
        // n < 0: UTF-16, -n code units then a null unit.
        let m: u64 = (-(n as i64)) as u64;
        let rem: usize = len - p4;
        if (rem as u64) < 2 * m + 2 {
            return Err(Error::TruncatedInput { offset: pos });
        }
        let mu: usize = m as usize;
        let ghost units = utf16_units(data@, pos as int, mu as int);
        let mut out: Vec<u16> = Vec::new();
        let mut j: usize = 0;
        while j < mu
            invariant
                len == data@.len(),
                p4 == pos + 4,
                mu == -sle32(data@, pos as int),
                p4 + 2 * mu + 2 <= len,
                j <= mu,
                units == utf16_units(data@, pos as int, mu as int),
                out@.len() == j,
                forall|k: int| 0 <= k < j ==> out@[k] == units[k] && units[k] != 0,
            decreases mu - j,
        {
            let lo = data[p4 + 2 * j];
            let hi = data[p4 + 2 * j + 1];
            let u: u16 = lo as u16 + 0x100u16 * hi as u16;
            proof {
                assert(u == units[j as int]);
            }
            if u == 0 {
                proof {
                    let i = pos as int;
                    let ms = -sle32(data@, i);
                    let su = utf16_units(data@, i, ms);
                    assert(su[j as int] == 0);
                    assert(exists|k: int| 0 <= k < ms && su[k] == 0);
                }
                return Err(Error::LengthMismatch { offset: pos });
            }
            out.push(u);
            j = j + 1;
        }
        let lo = data[p4 + 2 * mu];
        let hi = data[p4 + 2 * mu + 1];
        if lo as u16 + 0x100u16 * hi as u16 != 0 {
            return Err(Error::LengthMismatch { offset: pos });
        }
        proof {
            let i = pos as int;
            let ms = -sle32(data@, i);
            assert(out@ =~= utf16_units(data@, i, ms));
            assert(le16(data@, i + 4 + 2 * ms) == 0);
        }
        Ok((SaveString::UTF16(out), p4 + 2 * mu + 2))
    }
}

/// The four little-endian bytes of `v`, for `0 <= v < 2^32`.
pub open spec fn le32_of(v: int) -> Seq<u8> {
    seq![
        (v % 0x100) as u8,
        ((v / 0x100) % 0x100) as u8,
        ((v / 0x1_0000) % 0x100) as u8,
        ((v / 0x100_0000) % 0x100) as u8,
    ]
}

/// The little-endian byte serialization of a UTF-16 code-unit sequence.
pub open spec fn utf16_bytes(u: Seq<u16>) -> Seq<u8> {
    Seq::new(
        2 * u.len(),
        |j: int|
            if j % 2 == 0 {
                (u[j / 2] % 0x100) as u8
            } else {
                (u[j / 2] / 0x100) as u8
            },
    )
}

/// A string value the encoding can represent: non-empty payloads carry no
/// embedded null and their length fits the signed 32-bit prefix.
pub open spec fn valid_string(v: StringView) -> bool {
    match v {
        StringView::Empty => true,
        StringView::Utf8(b) => 0 < b.len() < 0x8000_0000 && (forall|j: int|
            0 <= j < b.len() ==> b[j] != 0),
        StringView::Utf16(u) => 0 < u.len() <= 0x8000_0000 && (forall|j: int|
            0 <= j < u.len() ==> u[j] != 0),
    }
}

/// The byte encoding of a string value: length prefix, payload, terminator.
pub open spec fn spec_encode_string(v: StringView) -> Seq<u8> {
    match v {
        StringView::Empty => le32_of(0),
        StringView::Utf8(b) => le32_of(b.len() as int) + b + seq![0u8],
        StringView::Utf16(u) => le32_of(0x1_0000_0000 - u.len()) + utf16_bytes(u) + seq![0u8, 0u8],
    }
}

/// Base-256 digit decomposition of a 32-bit value.
proof fn lemma_radix_le32(w: int)
    requires
        0 <= w < 0x1_0000_0000,
    ensures
        w % 0x100 + 0x100 * ((w / 0x100) % 0x100) + 0x1_0000 * ((w / 0x1_0000) % 0x100)
            + 0x100_0000 * ((w / 0x100_0000) % 0x100) == w,
{
    lemma_fundamental_div_mod(w, 0x100);
    lemma_div_denominator(w, 0x100, 0x100);
    lemma_fundamental_div_mod(w / 0x100, 0x100);
    lemma_div_denominator(w, 0x1_0000, 0x100);
    lemma_fundamental_div_mod(w / 0x1_0000, 0x100);
    lemma_div_denominator(w, 0x100_0000, 0x100);
    lemma_fundamental_div_mod(w / 0x100_0000, 0x100);
    lemma_basic_div(w, 0x1_0000_0000);
}

/// If the first four bytes of `s` are the little-endian digits of `w`, then
/// `le32` reads `w` back.
proof fn lemma_le32_of_read(s: Seq<u8>, w: int)
    requires
        0 <= w < 0x1_0000_0000,
        s.len() >= 4,
        s[0] == le32_of(w)[0],
        s[1] == le32_of(w)[1],
        s[2] == le32_of(w)[2],
        s[3] == le32_of(w)[3],
    ensures
        le32(s, 0) == w,
{
    lemma_radix_le32(w);
}

/// Every representable string value decodes back from its own encoding, for
/// the UTF-8 and UTF-16 forms alike, and the Empty form round-trips to a
/// zero-length string: the codec loses nothing.
#[verifier::rlimit(50)]
pub proof fn lemma_string_round_trip(v: StringView)
    requires
        valid_string(v),
    ensures
        spec_read_string(spec_encode_string(v), 0) == Ok::<(StringView, int), ErrorKind>(
            (v, spec_encode_string(v).len() as int),
        ),
{
    let s = spec_encode_string(v);
    match v {
        StringView::Empty => {
            lemma_le32_of_read(s, 0);
            assert(sle32(s, 0) == 0);
        },
        StringView::Utf8(b) => {
            let n = b.len() as int;
            lemma_le32_of_read(s, n);
            assert(sle32(s, 0) == n);
            assert(s.len() == 4 + n + 1);
            assert(forall|j: int| 4 <= j < 4 + n ==> s[j] == b[j - 4] && s[j] != 0);
            assert(s[4 + n] == 0);
            assert(s.subrange(4, 4 + n) =~= b);
        },
        StringView::Utf16(u) => {
            let m = u.len() as int;
            let w = 0x1_0000_0000 - m;
            lemma_le32_of_read(s, w);
            assert(le32(s, 0) == w);
            assert(sle32(s, 0) == -m);
            assert(s.len() == 4 + 2 * m + 2);
            let ub = utf16_bytes(u);
            assert(forall|k: int| 0 <= k < 2 * m ==> s[4 + k] == ub[k]);
            assert forall|j: int| 0 <= j < m implies le16(s, 4 + 2 * j) == u[j] by {
                assert(s[4 + 2 * j] == ub[2 * j]);
                assert(s[4 + 2 * j + 1] == ub[2 * j + 1]);
                assert(ub[2 * j] == (u[j] % 0x100) as u8);
                assert(ub[2 * j + 1] == (u[j] / 0x100) as u8);
                lemma_fundamental_div_mod(u[j] as int, 0x100);
            }
            let units = utf16_units(s, 0, m);
            assert(units =~= u);
            assert(s[4 + 2 * m] == 0 && s[4 + 2 * m + 1] == 0);
            assert(le16(s, 4 + 2 * m) == 0);
        },
    }
}

/// Appends the four little-endian bytes of `w`.
fn push_le32(out: &mut Vec<u8>, w: u32)
    ensures
        final(out)@ == old(out)@ + le32_of(w as int),
{
    out.push((w % 0x100) as u8);
    out.push((w / 0x100 % 0x100) as u8);
    out.push((w / 0x1_0000 % 0x100) as u8);
    out.push((w / 0x100_0000 % 0x100) as u8);
    proof {
        assert(out@ =~= old(out)@ + le32_of(w as int));
    }
}

impl SaveString {
    /// Encodes a representable value back into its byte form; `read` is its
    /// inverse.
    pub fn encode(&self) -> (r: Vec<u8>)
        requires
            valid_string(self@),
        ensures
            r@ == spec_encode_string(self@),
    {
        let mut out: Vec<u8> = Vec::new();
        match self {
            SaveString::Empty => {
                push_le32(&mut out, 0);
                proof {
                    assert(out@ =~= spec_encode_string(self@));
                }
            },
            SaveString::UTF8(b) => {
                let n: usize = b.len();
                push_le32(&mut out, n as u32);
                let mut j: usize = 0;
                while j < n
                    invariant
                        n == b@.len(),
                        n < 0x8000_0000,
                        j <= n,
                        out@ == le32_of(n as int) + b@.subrange(0, j as int),
                    decreases n - j,
                {
                    out.push(b[j]);
                    j = j + 1;
                    proof {
                        assert(out@ =~= le32_of(n as int) + b@.subrange(0, j as int));
                    }
                }
                out.push(0u8);
                proof {
                    assert(out@ =~= spec_encode_string(self@));
                }
            },
            SaveString::UTF16(u) => {
                let m: usize = u.len();
                let w: u64 = 0x1_0000_0000u64 - (m as u64);
                push_le32(&mut out, w as u32);
                let mut j: usize = 0;
                while j < m
                    invariant
                        m == u@.len(),
                        0 < m <= 0x8000_0000,
                        j <= m,
                        out@.len() == 4 + 2 * j,
                        out@.subrange(0, 4) == le32_of(0x1_0000_0000 - m as int),
                        forall|k: int| 0 <= k < 2 * j ==> out@[4 + k] == utf16_bytes(u@)[k],
                    decreases m - j,
                {
                    let x: u16 = u[j];
                    out.push((x % 0x100) as u8);
                    out.push((x / 0x100) as u8);
                    j = j + 1;
                }
                out.push(0u8);
                out.push(0u8);
                proof {
                    assert(out@ =~= spec_encode_string(self@));
                }
            },
        }
        out
    }
}

/// Cross-encoding equality of a string value against the bytes of an ASCII
/// tag: an Empty value matches only the empty tag, a UTF-8 payload matches
/// byte for byte, a UTF-16 payload matches unit for unit.
pub open spec fn bytes_match(v: StringView, t: Seq<u8>) -> bool {
    match v {
        StringView::Empty => t.len() == 0,
        StringView::Utf8(b) => b == t,
        StringView::Utf16(u) => u.len() == t.len() && (forall|j: int|
            0 <= j < t.len() ==> u[j] == t[j] as u16),
    }
}

/// Compares a decoded string with a literal across encodings; used to
/// detect the "None" sentinel and to match type-tag strings. The comparison
/// is against the literal's UTF-8 bytes: for the ASCII tags and sentinel of
/// this format it coincides with text equality, while a non-ASCII literal
/// (whose UTF-8 form is multi-byte) would never match a UTF-16 payload
/// unit for unit.
pub fn matches_lit(s: &SaveString, t: &str) -> (r: bool)
    ensures
        r == bytes_match(s@, t.spec_bytes()),
{
    let tb: &[u8] = t.as_bytes();
    match s {
        SaveString::Empty => tb.len() == 0,
        SaveString::UTF8(v) => {
            if v.len() != tb.len() {
                proof {
                    assert(v@ != tb@);
                }
                return false;
            }
            let n: usize = v.len();
            let mut j: usize = 0;
            while j < n
                invariant
                    s@ == StringView::Utf8(v@),
                    n == v@.len(),
                    n == tb@.len(),
                    tb@ == t.spec_bytes(),
                    j <= n,
                    forall|k: int| 0 <= k < j ==> v@[k] == tb@[k],
                decreases n - j,
            {
                if v[j] != tb[j] {
                    proof {
                        assert(v@[j as int] != tb@[j as int]);
                    }
                    return false;
                }
                j = j + 1;
            }
            proof {
                assert(v@ =~= tb@);
            }
            true
        },
        SaveString::UTF16(v) => {
            if v.len() != tb.len() {
                return false;
            }
            let n: usize = v.len();
            let mut j: usize = 0;
            while j < n
                invariant
                    s@ == StringView::Utf16(v@),
                    n == v@.len(),
                    n == tb@.len(),
                    tb@ == t.spec_bytes(),
                    j <= n,
                    forall|k: int| 0 <= k < j ==> v@[k] == tb@[k] as u16,
                decreases n - j,
            {
                if v[j] != tb[j] as u16 {
                    proof {
                        assert(v@[j as int] != tb@[j as int] as u16);
                    }
                    return false;
                }
                j = j + 1;
            }
            true
        },
    }
}

/// The text that the lossy UTF-8 decoding gives for a byte payload.
pub uninterp spec fn utf8_lossy_of(bytes: Seq<u8>) -> Seq<char>;

/// The text that the lossy UTF-16 decoding gives for a code-unit payload.
pub uninterp spec fn utf16_lossy_of(units: Seq<u16>) -> Seq<char>;

/// Relies on alloc's String::from_utf8_lossy: its replacement-character
/// decoding depends on the bytes alone, and an empty input gives an empty
/// string.
#[verifier::external_body]
pub(crate) fn utf8_string(bytes: &Vec<u8>) -> (r: String)
    ensures
        r@ == utf8_lossy_of(bytes@),
        bytes@.len() == 0 ==> r@.len() == 0,
{
    String::from_utf8_lossy(bytes.as_slice()).to_string()
}

/// Relies on alloc's String::from_utf16_lossy: its replacement-character
/// decoding depends on the code units alone, and an empty input gives an
/// empty string.
#[verifier::external_body]
pub(crate) fn utf16_string(units: &Vec<u16>) -> (r: String)
    ensures
        r@ == utf16_lossy_of(units@),
        units@.len() == 0 ==> r@.len() == 0,
{
    String::from_utf16_lossy(units.as_slice())
}

/// The human-readable text of a string value, through the lossy decodings.
pub open spec fn text_of(v: StringView) -> Seq<char> {
    match v {
        StringView::Empty => Seq::empty(),
        StringView::Utf8(b) => utf8_lossy_of(b),
        StringView::Utf16(u) => utf16_lossy_of(u),
    }
}

impl SaveString {
    /// The decoded text of this string, for display.
    pub fn to_text(&self) -> (r: String)
        ensures
            r@ == text_of(self@),
    {
        match self {
            SaveString::Empty => {
                let r = String::new();
                proof {
                    assert(r@ =~= text_of(self@));
                }
                r
            },
            SaveString::UTF8(v) => utf8_string(v),
            SaveString::UTF16(v) => utf16_string(v),
        }
    }
}

/// The same three-form encoded string, kept as its own type for callers
/// that want the undecorated variant.
#[derive(Debug)]
pub enum ADAString {
    Empty,
    UTF8(Vec<u8>),
    UTF16(Vec<u16>),
}

impl View for ADAString {
    type V = StringView;

    open spec fn view(&self) -> StringView {
        match self {
            ADAString::Empty => StringView::Empty,
            ADAString::UTF8(v) => StringView::Utf8(v@),
            ADAString::UTF16(v) => StringView::Utf16(v@),
        }
    }
}

impl ADAString {
    /// Decodes one length-prefixed string, exactly as `SaveString::read`.
    pub fn read(data: &Vec<u8>, pos: usize) -> (r: Result<(ADAString, usize), Error>)
        requires
            pos <= data@.len(),
        ensures
            match spec_read_string(data@, pos as int) {
                Ok(vp) => r matches Ok(x) && x.0@ == vp.0 && x.1 == vp.1,
                Err(k) => r matches Err(e) && kind_of(e) == k,
            },
    {
        let (s, p) = SaveString::read(data, pos)?;
        let a = match s {
            SaveString::Empty => ADAString::Empty,
            SaveString::UTF8(v) => ADAString::UTF8(v),
            SaveString::UTF16(v) => ADAString::UTF16(v),
        };
        Ok((a, p))
    }

    /// The decoded text of this string, for display.
    pub fn to_text(&self) -> (r: String)
        ensures
            r@ == text_of(self@),
    {
        match self {
            ADAString::Empty => {
                let r = String::new();
                proof {
                    assert(r@ =~= text_of(self@));
                }
                r
            },
            ADAString::UTF8(v) => utf8_string(v),
            ADAString::UTF16(v) => utf16_string(v),
        }
    }
}

} // verus!
