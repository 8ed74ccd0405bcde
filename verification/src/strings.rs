//! The three string layouts of the shell link format: null-terminated,
//! size-prefixed, and fixed-size buffers, each in either UTF-16LE or a
//! caller-selected 8-bit code page.

use vstd::prelude::*;

use crate::Error;
use crate::bytes::has_bytes;
use crate::bytes::le_u16;
use crate::bytes::read_bytes;
use crate::bytes::read_u16;
use crate::encoding::chars_vec;
use crate::encoding::cp_decoded;
use crate::encoding::decode_codepage;
use crate::encoding::decode_utf16le;
use crate::encoding::string_from_chars;
use crate::encoding::utf16le_decoded;

verus! {

/// Selects how the bytes of a string are to be decoded: through a Windows
/// code page number, or as UTF-16LE.
#[derive(Clone, Copy, Debug, PartialEq, Eq, Structural)]
pub enum StringEncoding {
    /// An 8-bit encoding named by its Windows code page number.
    CodePage(u16),
    /// UTF-16LE, the encoding Windows calls Unicode.
    Unicode,
}

/// What decoding `bytes` under `enc` yields, if anything.
pub open spec fn spec_decoded(enc: StringEncoding, bytes: Seq<u8>) -> Option<Seq<char>> {
    match enc {
        StringEncoding::CodePage(cp) => cp_decoded(cp, bytes),
        StringEncoding::Unicode => utf16le_decoded(bytes),
    }
}

/// Decodes `bytes` under `enc`; `None` when the bytes (or the code page)
/// are not acceptable.
pub fn decode_with(enc: &StringEncoding, bytes: &[u8]) -> (r: Option<String>)
    ensures
        r matches Some(s) ==> spec_decoded(*enc, bytes@) matches Some(t) && s@ == t,
        r is None <==> spec_decoded(*enc, bytes@) is None,
{
    match enc {
        StringEncoding::CodePage(cp) => decode_codepage(*cp, bytes),
        StringEncoding::Unicode => decode_utf16le(bytes),
    }
}

/// The position of the first zero byte at or after `pos`.
pub open spec fn find_nul8(d: Seq<u8>, pos: int) -> Option<int>
    decreases d.len() - pos,
{
    if pos < 0 || pos >= d.len() {
        None
    } else if d[pos] == 0 {
        Some(pos)
    } else {
        find_nul8(d, pos + 1)
    }
}

/// The position of the first zero 16-bit unit at `pos`, `pos + 2`, ...
pub open spec fn find_nul16(d: Seq<u8>, pos: int) -> Option<int>
    decreases d.len() - pos,
{
    if pos < 0 || pos + 2 > d.len() {
        None
    } else if le_u16(d, pos) == 0 {
        Some(pos)
    } else {
        find_nul16(d, pos + 2)
    }
}

/// The index of the first NUL character at or after `i`.
pub open spec fn nul_char_index(s: Seq<char>, i: int) -> Option<int>
    decreases s.len() - i,
{
    if i < 0 || i >= s.len() {
        None
    } else if s[i] == '\0' {
        Some(i)
    } else {
        nul_char_index(s, i + 1)
    }
}

/// The characters before the first NUL; the whole text when there is none.
pub open spec fn trim_at_nul(s: Seq<char>) -> Seq<char> {
    match nul_char_index(s, 0) {
        Some(i) => s.take(i),
        None => s,
    }
}

proof fn lemma_find_nul8_found(d: Seq<u8>, pos: int, k: int)
    requires
        0 <= pos <= k < d.len(),
        d[k] == 0,
        forall|j: int| pos <= j < k ==> d[j] != 0,
    ensures
        find_nul8(d, pos) == Some(k),
    decreases k - pos,
{
    if pos < k {
        lemma_find_nul8_found(d, pos + 1, k);
    }
}

proof fn lemma_find_nul8_none(d: Seq<u8>, pos: int)
    requires
        0 <= pos <= d.len(),
        forall|j: int| pos <= j < d.len() ==> d[j] != 0,
    ensures
        find_nul8(d, pos) is None,
    decreases d.len() - pos,
{
    if pos < d.len() {
        lemma_find_nul8_none(d, pos + 1);
    }
}

proof fn lemma_find_nul16_found(d: Seq<u8>, pos: int, k: int)
    requires
        0 <= pos <= k,
        k + 2 <= d.len(),
        (k - pos) % 2 == 0,
        le_u16(d, k) == 0,
        forall|j: int| pos <= j < k && (j - pos) % 2 == 0 ==> le_u16(d, j) != 0,
    ensures
        find_nul16(d, pos) == Some(k),
    decreases k - pos,
{
    if pos < k {
        assert(le_u16(d, pos) != 0);
        assert((k - (pos + 2)) % 2 == 0);
        lemma_find_nul16_found(d, pos + 2, k);
    }
}

proof fn lemma_find_nul16_none(d: Seq<u8>, pos: int)
    requires
        0 <= pos,
        forall|j: int| pos <= j && j + 2 <= d.len() && (j - pos) % 2 == 0 ==> le_u16(d, j) != 0,
    ensures
        find_nul16(d, pos) is None,
    decreases d.len() - pos,
{
    if pos + 2 <= d.len() {
        assert(le_u16(d, pos) != 0);
        lemma_find_nul16_none(d, pos + 2);
    }
}

proof fn lemma_nul_char_found(s: Seq<char>, pos: int, k: int)
    requires
        0 <= pos <= k < s.len(),
        s[k] == '\0',
        forall|j: int| pos <= j < k ==> s[j] != '\0',
    ensures
        nul_char_index(s, pos) == Some(k),
    decreases k - pos,
{
    if pos < k {
        lemma_nul_char_found(s, pos + 1, k);
    }
}

proof fn lemma_nul_char_none(s: Seq<char>, pos: int)
    requires
        0 <= pos <= s.len(),
        forall|j: int| pos <= j < s.len() ==> s[j] != '\0',
    ensures
        nul_char_index(s, pos) is None,
    decreases s.len() - pos,
{
    if pos < s.len() {
        lemma_nul_char_none(s, pos + 1);
    }
}

/// Scans forward for the first zero byte; returns its position.
fn scan_nul8(data: &[u8], pos: usize) -> (r: Option<usize>)
    ensures
        r matches Some(k) ==> find_nul8(data@, pos as int) == Some(k as int) && pos <= k < data@.len(),
        r is None <==> find_nul8(data@, pos as int) is None,
{
    let len: usize = data.len();
    let mut i: usize = pos;
    if i > len {
        proof {
            assert(find_nul8(data@, pos as int) is None);
        }
        return None;
    }
    while i < len
        invariant
            pos <= i <= len,
            len == data@.len(),
            forall|j: int| pos <= j < i ==> data@[j] != 0,
        decreases len - i,
    {
        if data[i] == 0 {
            proof {
                lemma_find_nul8_found(data@, pos as int, i as int);
            }
            return Some(i);
        }
        i = i + 1;
    }
    proof {
        lemma_find_nul8_none(data@, pos as int);
    }
    None
}

/// Scans forward in 16-bit steps for the first zero unit.
fn scan_nul16(data: &[u8], pos: usize) -> (r: Option<usize>)
    ensures
        r matches Some(k) ==> find_nul16(data@, pos as int) == Some(k as int) && pos <= k && k + 2
            <= data@.len(),
        r is None <==> find_nul16(data@, pos as int) is None,
{
    let len: usize = data.len();
    let mut i: usize = pos;
    while 2 <= len && i <= len - 2
        invariant
            pos <= i,
            len == data@.len(),
            (i - pos) % 2 == 0,
            forall|j: int| pos <= j < i && (j - pos) % 2 == 0 ==> le_u16(data@, j) != 0,
        decreases len - i,
    {
        let w = match read_u16(data, i) {
            Some(w) => w,
            None => 0,
        };
        if w == 0 {
            proof {
                lemma_find_nul16_found(data@, pos as int, i as int);
            }
            return Some(i);
        }
        i = i + 2;
    }
    proof {
        lemma_find_nul16_none(data@, pos as int);
    }
    None
}

/// The index of the first NUL character of `v`, if any.
fn scan_nul_char(v: &Vec<char>) -> (r: Option<usize>)
    ensures
        r matches Some(k) ==> nul_char_index(v@, 0) == Some(k as int) && k < v@.len(),
        r is None <==> nul_char_index(v@, 0) is None,
{
    let mut i: usize = 0;
    while i < v.len()
        invariant
            i <= v@.len(),
            forall|j: int| 0 <= j < i ==> v@[j] != '\0',
        decreases v@.len() - i,
    {
        if v[i] == '\0' {
            proof {
                lemma_nul_char_found(v@, 0, i as int);
            }
            return Some(i);
        }
        i = i + 1;
    }
    proof {
        lemma_nul_char_none(v@, 0);
    }
    None
}

/// The text before the first NUL character of `s`; empty when `s` has no
/// NUL at all.
pub fn trim_nul_terminated_string(s: &str) -> (r: String)
    ensures
        r@ == (match nul_char_index(s@, 0) {
            Some(i) => s@.take(i),
            None => Seq::<char>::empty(),
        }),
{
    let v = chars_vec(s);
    let end: usize = match scan_nul_char(&v) {
        Some(k) => k,
        None => 0,
    };
    let mut out: Vec<char> = Vec::new();
    let mut i: usize = 0;
    while i < end
        invariant
            end <= v@.len(),
            i <= end,
            out@ == v@.subrange(0, i as int),
        decreases end - i,
    {
        out.push(v[i]);
        i = i + 1;
        proof {
            assert(out@ =~= v@.subrange(0, i as int));
        }
    }
    proof {
        match nul_char_index(s@, 0) {
            Some(k) => {
                assert(out@ =~= s@.take(k));
            },
            None => {
                assert(out@ =~= Seq::<char>::empty());
            },
        }
    }
    string_from_chars(&out)
}

/// Where a null-terminated read of `d` at `pos` ends: the content extent
/// and the position just past the terminator.
pub open spec fn spec_nts_scan(enc: StringEncoding, d: Seq<u8>, pos: int) -> Option<(int, int)> {
    match enc {
        StringEncoding::CodePage(_) => match find_nul8(d, pos) {
            Some(k) => Some((k, k + 1)),
            None => None,
        },
        StringEncoding::Unicode => match find_nul16(d, pos) {
            Some(k) => Some((k, k + 2)),
            None => None,
        },
    }
}

/// Reads the bytes of a null-terminated string (terminator included in the
/// consumed extent, excluded from the content) and decodes the content.
pub fn read_null_terminated(data: &[u8], pos: usize, enc: &StringEncoding) -> (r: Result<
    (String, usize),
    Error,
>)
    ensures
        r matches Ok((s, end)) ==> {
            &&& spec_nts_scan(*enc, data@, pos as int) matches Some((k, next))
            &&& end == next
            &&& spec_decoded(*enc, data@.subrange(pos as int, k)) matches Some(t)
            &&& s@ == t
        },
        r matches Err(e) ==> (spec_nts_scan(*enc, data@, pos as int) is None && e matches Error::Io { .. })
            || (spec_nts_scan(*enc, data@, pos as int) matches Some((k, _)) && spec_decoded(
            *enc,
            data@.subrange(pos as int, k),
        ) is None && e matches Error::InvalidEncoding { .. }),
        r is Err <==> spec_nts_scan(*enc, data@, pos as int) is None || (spec_nts_scan(
            *enc,
            data@,
            pos as int,
        ) matches Some((k, _)) && spec_decoded(*enc, data@.subrange(pos as int, k)) is None),
{
    let len: usize = data.len();
    let found: Option<(usize, usize)> = match enc {
        StringEncoding::CodePage(_) => match scan_nul8(data, pos) {
            Some(k) => Some((k, k + 1)),
            None => None,
        },
        StringEncoding::Unicode => match scan_nul16(data, pos) {
            Some(k) => Some((k, k + 2)),
            None => None,
        },
    };
    match found {
        None => Err(Error::Io { offset: len }),
        Some((k, next)) => {
            let content = match read_bytes(data, pos, k - pos) {
                Some(v) => v,
                None => Vec::new(),
            };
            match decode_with(enc, content.as_slice()) {
                Some(s) => Ok((s, next)),
                None => Err(Error::InvalidEncoding { encoding: *enc, offset: pos }),
            }
        },
    }
}

/// Reads a size-prefixed string: a 16-bit count of characters, then that
/// many bytes (8-bit encoding) or twice that many (UTF-16LE).
pub open spec fn spec_sized_extent(enc: StringEncoding, d: Seq<u8>, pos: int) -> Option<(int, int)> {
    if !has_bytes(d, pos, 2) {
        None
    } else {
        let count = le_u16(d, pos) as int;
        let n = match enc {
            StringEncoding::CodePage(_) => count,
            StringEncoding::Unicode => 2 * count,
        };
        if has_bytes(d, pos + 2, n) {
            Some((pos + 2, pos + 2 + n))
        } else {
            None
        }
    }
}

pub fn read_sized(data: &[u8], pos: usize, enc: &StringEncoding) -> (r: Result<
    (String, usize),
    Error,
>)
    ensures
        r matches Ok((s, end)) ==> {
            &&& spec_sized_extent(*enc, data@, pos as int) matches Some((start, stop))
            &&& end == stop
            &&& spec_decoded(*enc, data@.subrange(start, stop)) matches Some(t)
            &&& s@ == t
        },
        r matches Err(e) ==> (!has_bytes(data@, pos as int, 2) && e matches Error::Io { .. }) || (
        has_bytes(data@, pos as int, 2) && spec_sized_extent(*enc, data@, pos as int) is None
            && e matches Error::TruncatedStringData) || (spec_sized_extent(*enc, data@, pos as int)
            matches Some((start, stop)) && spec_decoded(*enc, data@.subrange(start, stop)) is None
            && e matches Error::InvalidEncoding { .. }),
        r is Err <==> spec_sized_extent(*enc, data@, pos as int) is None || (spec_sized_extent(
            *enc,
            data@,
            pos as int,
        ) matches Some((start, stop)) && spec_decoded(*enc, data@.subrange(start, stop)) is None),
{
    let count = match read_u16(data, pos) {
        Some(c) => c as usize,
        None => {
            return Err(Error::Io { offset: pos });
        },
    };
    let len: usize = data.len();
    let n: usize = match enc {
        StringEncoding::CodePage(_) => count,
        StringEncoding::Unicode => 2 * count,
    };
    let start = pos + 2;
    match read_bytes(data, start, n) {
        None => Err(Error::TruncatedStringData),
        Some(content) => {
            match decode_with(enc, content.as_slice()) {
                Some(s) => Ok((s, start + n)),
                None => Err(Error::InvalidEncoding { encoding: *enc, offset: start }),
            }
        },
    }
}

/// Reads exactly `count` bytes, decodes them, and trims the decoded text at
/// its first NUL character (the whole text when there is none).
pub fn read_fixed_size(data: &[u8], pos: usize, count: usize, enc: &StringEncoding) -> (r: Result<
    (String, usize),
    Error,
>)
    ensures
        r matches Ok((s, end)) ==> {
            &&& has_bytes(data@, pos as int, count as int)
            &&& end == pos + count
            &&& spec_decoded(*enc, data@.subrange(pos as int, pos + count)) matches Some(t)
            &&& s@ == trim_at_nul(t)
        },
        r matches Err(e) ==> (!has_bytes(data@, pos as int, count as int) && e matches Error::Io { .. })
            || (has_bytes(data@, pos as int, count as int) && spec_decoded(
            *enc,
            data@.subrange(pos as int, pos + count),
        ) is None && e matches Error::InvalidEncoding { .. }),
        r is Err <==> !has_bytes(data@, pos as int, count as int) || spec_decoded(
            *enc,
            data@.subrange(pos as int, pos + count),
        ) is None,
{
    let len: usize = data.len();
    match read_bytes(data, pos, count) {
        None => Err(Error::Io { offset: pos }),
        Some(content) => {
            match decode_with(enc, content.as_slice()) {
                None => Err(Error::InvalidEncoding { encoding: *enc, offset: pos }),
                Some(s) => {
                    let v = chars_vec(s.as_str());
                    match scan_nul_char(&v) {
                        None => Ok((s, pos + count)),
                        Some(k) => {
                            let mut out: Vec<char> = Vec::new();
                            let mut i: usize = 0;
                            while i < k
                                invariant
                                    k <= v@.len(),
                                    i <= k,
                                    out@ == v@.subrange(0, i as int),
                                decreases k - i,
                            {
                                out.push(v[i]);
                                i = i + 1;
                                proof {
                                    assert(out@ =~= v@.subrange(0, i as int));
                                }
                            }
                            proof {
                                assert(out@ =~= v@.take(k as int));
                            }
                            Ok((string_from_chars(&out), pos + count))
                        },
                    }
                },
            }
        },
    }
}

/// A string stored with a leading 16-bit character count.
#[derive(Clone, Debug)]
pub struct SizedString {
    value: String,
}

impl View for SizedString {
    type V = Seq<char>;

    closed spec fn view(&self) -> Seq<char> {
        self.value@
    }
}

impl SizedString {
    /// Decodes a size-prefixed string at `pos`.
    pub fn read(data: &[u8], pos: usize, enc: &StringEncoding) -> (r: Result<
        (SizedString, usize),
        Error,
    >)
        ensures
            r matches Ok((s, end)) ==> {
                &&& spec_sized_extent(*enc, data@, pos as int) matches Some((start, stop))
                &&& end == stop
                &&& spec_decoded(*enc, data@.subrange(start, stop)) matches Some(t)
                &&& s@ == t
            },
            r is Err <==> spec_sized_extent(*enc, data@, pos as int) is None || (spec_sized_extent(
                *enc,
                data@,
                pos as int,
            ) matches Some((start, stop)) && spec_decoded(
                *enc,
                data@.subrange(start, stop),
            ) is None),
    {
        match read_sized(data, pos, enc) {
            Ok((value, end)) => Ok((SizedString { value }, end)),
            Err(e) => Err(e),
        }
    }

    /// The decoded text.
    pub fn as_str(&self) -> (r: &str)
        ensures
            r@ == self@,
    {
        self.value.as_str()
    }
}

/// A string read up to (and consuming) its NUL terminator.
#[derive(Clone, Debug)]
pub struct NullTerminatedString {
    value: String,
}

impl View for NullTerminatedString {
    type V = Seq<char>;

    closed spec fn view(&self) -> Seq<char> {
        self.value@
    }
}

impl NullTerminatedString {
    /// Decodes a null-terminated string at `pos`.
    pub fn read(data: &[u8], pos: usize, enc: &StringEncoding) -> (r: Result<
        (NullTerminatedString, usize),
        Error,
    >)
        ensures
            r matches Ok((s, end)) ==> {
                &&& spec_nts_scan(*enc, data@, pos as int) matches Some((k, next))
                &&& end == next
                &&& spec_decoded(*enc, data@.subrange(pos as int, k)) matches Some(t)
                &&& s@ == t
            },
            r is Err <==> spec_nts_scan(*enc, data@, pos as int) is None || (spec_nts_scan(
                *enc,
                data@,
                pos as int,
            ) matches Some((k, _)) && spec_decoded(*enc, data@.subrange(pos as int, k)) is None),
    {
        match read_null_terminated(data, pos, enc) {
            Ok((value, end)) => Ok((NullTerminatedString { value }, end)),
            Err(e) => Err(e),
        }
    }

    /// The decoded text.
    pub fn as_str(&self) -> (r: &str)
        ensures
            r@ == self@,
    {
        self.value.as_str()
    }
}

/// A string stored in a buffer of a fixed byte size, trimmed at its first
/// NUL character.
#[derive(Clone, Debug)]
pub struct FixedSizeString {
    value: String,
}

impl View for FixedSizeString {
    type V = Seq<char>;

    closed spec fn view(&self) -> Seq<char> {
        self.value@
    }
}

impl FixedSizeString {
    /// Decodes a fixed-size string buffer of `count` bytes at `pos`.
    pub fn read(data: &[u8], pos: usize, count: usize, enc: &StringEncoding) -> (r: Result<
        (FixedSizeString, usize),
        Error,
    >)
        ensures
            r matches Ok((s, end)) ==> {
                &&& has_bytes(data@, pos as int, count as int)
                &&& end == pos + count
                &&& spec_decoded(*enc, data@.subrange(pos as int, pos + count)) matches Some(t)
                &&& s@ == trim_at_nul(t)
            },
            r is Err <==> !has_bytes(data@, pos as int, count as int) || spec_decoded(
                *enc,
                data@.subrange(pos as int, pos + count),
            ) is None,
    {
        match read_fixed_size(data, pos, count, enc) {
            Ok((value, end)) => Ok((FixedSizeString { value }, end)),
            Err(e) => Err(e),
        }
    }

    /// The decoded, trimmed text.
    pub fn as_str(&self) -> (r: &str)
        ensures
            r@ == self@,
    {
        self.value.as_str()
    }

    /// True when the trimmed text is empty.
    pub fn is_empty(&self) -> (r: bool)
        ensures
            r == (self@.len() == 0),
    {
        self.value.as_str().unicode_len() == 0
    }
}

impl StringEncoding {
    /// The encoding the link flags select: UTF-16LE when the Unicode flag
    /// is set, the caller's default code page otherwise.
    pub fn from_flags(link_flags: &crate::header::LinkFlags, default_codepage: u16) -> (r:
        StringEncoding)
        ensures
            r == (if crate::header::flag_set(link_flags@, crate::header::IS_UNICODE) {
                StringEncoding::Unicode
            } else {
                StringEncoding::CodePage(default_codepage)
            }),
    {
        encoding_from_flags(link_flags.is_unicode(), default_codepage)
    }
}

/// Selects the encoding the header's Unicode flag calls for: UTF-16LE when
/// the flag is set, the caller's default code page otherwise.
pub fn encoding_from_flags(is_unicode: bool, default_codepage: u16) -> (r: StringEncoding)
    ensures
        r == (if is_unicode {
            StringEncoding::Unicode
        } else {
            StringEncoding::CodePage(default_codepage)
        }),
{
    if is_unicode {
        StringEncoding::Unicode
    } else {
        StringEncoding::CodePage(default_codepage)
    }
}

} // verus!
