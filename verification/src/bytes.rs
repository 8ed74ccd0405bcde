//! Little-endian primitive codecs over a byte buffer.
//!
//! Every structure of the shell link format is read through these functions;
//! their contracts tie each executable read to a mathematical view of the
//! input bytes, so that higher-level decoders can state exactly which words
//! of the input each field came from.

use vstd::prelude::*;

use vstd::arithmetic::div_mod::lemma_fundamental_div_mod_converse;

verus! {

/// The 16-bit little-endian word starting at byte `i`.
pub open spec fn le_u16(d: Seq<u8>, i: int) -> u16 {
    (d[i] + d[i + 1] * 0x100) as u16
}

/// The 32-bit little-endian word starting at byte `i`.
pub open spec fn le_u32(d: Seq<u8>, i: int) -> u32 {
    (le_u16(d, i) + le_u16(d, i + 2) * 0x10000) as u32
}

/// The 64-bit little-endian word starting at byte `i`.
pub open spec fn le_u64(d: Seq<u8>, i: int) -> u64 {
    (le_u32(d, i) + le_u32(d, i + 4) * 0x1_0000_0000) as u64
}

/// The 32-bit little-endian word at byte `i`, reinterpreted as signed.
pub open spec fn le_i32(d: Seq<u8>, i: int) -> i32 {
    le_u32(d, i) as i32
}

/// The 16-bit little-endian word at byte `i`, reinterpreted as signed.
pub open spec fn le_i16(d: Seq<u8>, i: int) -> i16 {
    le_u16(d, i) as i16
}

/// The two little-endian bytes of a 16-bit word.
pub open spec fn u16_le_bytes(x: u16) -> Seq<u8> {
    seq![(x % 0x100) as u8, (x / 0x100) as u8]
}

/// The four little-endian bytes of a 32-bit word.
pub open spec fn u32_le_bytes(x: u32) -> Seq<u8> {
    u16_le_bytes((x % 0x10000) as u16) + u16_le_bytes((x / 0x10000) as u16)
}

/// The eight little-endian bytes of a 64-bit word.
pub open spec fn u64_le_bytes(x: u64) -> Seq<u8> {
    u32_le_bytes((x % 0x1_0000_0000) as u32) + u32_le_bytes((x / 0x1_0000_0000) as u32)
}

/// Reading a 16-bit word and serialising it again gives the same bytes.
pub proof fn lemma_u16_le_bytes_round(d: Seq<u8>, i: int)
    requires
        0 <= i,
        i + 2 <= d.len(),
    ensures
        u16_le_bytes(le_u16(d, i)) == d.subrange(i, i + 2),
{
    let x = le_u16(d, i) as int;
    lemma_fundamental_div_mod_converse(x, 0x100, d[i + 1] as int, d[i] as int);
    assert(u16_le_bytes(le_u16(d, i)) =~= d.subrange(i, i + 2));
}

/// Reading a 32-bit word and serialising it again gives the same bytes.
pub proof fn lemma_u32_le_bytes_round(d: Seq<u8>, i: int)
    requires
        0 <= i,
        i + 4 <= d.len(),
    ensures
        u32_le_bytes(le_u32(d, i)) == d.subrange(i, i + 4),
{
    let x = le_u32(d, i) as int;
    lemma_fundamental_div_mod_converse(x, 0x10000, le_u16(d, i + 2) as int, le_u16(d, i) as int);
    lemma_u16_le_bytes_round(d, i);
    lemma_u16_le_bytes_round(d, i + 2);
    assert(u32_le_bytes(le_u32(d, i)) =~= d.subrange(i, i + 4));
}

/// The unsigned 32-bit word with the same bit pattern as `x`.
pub open spec fn i32_bits(x: i32) -> u32 {
    if x >= 0 {
        x as u32
    } else {
        (x + 0x1_0000_0000) as u32
    }
}

/// True when `n` more bytes are available at position `pos`.
pub open spec fn has_bytes(d: Seq<u8>, pos: int, n: int) -> bool {
    0 <= pos && pos + n <= d.len()
}

pub fn read_u8(data: &[u8], pos: usize) -> (r: Option<u8>)
    ensures
        r matches Some(b) ==> has_bytes(data@, pos as int, 1) && b == data@[pos as int],
        r is None <==> !has_bytes(data@, pos as int, 1),
{
    if pos < data.len() {
        Some(data[pos])
    } else {
        None
    }
}

pub fn read_u16(data: &[u8], pos: usize) -> (r: Option<u16>)
    ensures
        r matches Some(w) ==> has_bytes(data@, pos as int, 2) && w == le_u16(data@, pos as int),
        r is None <==> !has_bytes(data@, pos as int, 2),
{
    if data.len() >= 2 && pos <= data.len() - 2 {
        let lo = data[pos] as u16;
        let hi = data[pos + 1] as u16;
        Some(lo + hi * 0x100)
    } else {
        None
    }
}

pub fn read_u32(data: &[u8], pos: usize) -> (r: Option<u32>)
    ensures
        r matches Some(w) ==> has_bytes(data@, pos as int, 4) && w == le_u32(data@, pos as int),
        r is None <==> !has_bytes(data@, pos as int, 4),
{
    if data.len() >= 4 && pos <= data.len() - 4 {
        let lo = match read_u16(data, pos) {
            Some(w) => w as u32,
            None => 0,
        };
        let hi = match read_u16(data, pos + 2) {
            Some(w) => w as u32,
            None => 0,
        };
        Some(lo + hi * 0x10000)
    } else {
        None
    }
}

pub fn read_u64(data: &[u8], pos: usize) -> (r: Option<u64>)
    ensures
        r matches Some(w) ==> has_bytes(data@, pos as int, 8) && w == le_u64(data@, pos as int),
        r is None <==> !has_bytes(data@, pos as int, 8),
{
    if data.len() >= 8 && pos <= data.len() - 8 {
        let lo = match read_u32(data, pos) {
            Some(w) => w as u64,
            None => 0,
        };
        let hi = match read_u32(data, pos + 4) {
            Some(w) => w as u64,
            None => 0,
        };
        Some(lo + hi * 0x1_0000_0000)
    } else {
        None
    }
}

pub fn read_i32(data: &[u8], pos: usize) -> (r: Option<i32>)
    ensures
        r matches Some(w) ==> has_bytes(data@, pos as int, 4) && w == le_i32(data@, pos as int),
        r is None <==> !has_bytes(data@, pos as int, 4),
{
    match read_u32(data, pos) {
        Some(w) => Some(
            #[verifier::truncate]
            (w as i32),
        ),
        None => None,
    }
}

pub fn read_i16(data: &[u8], pos: usize) -> (r: Option<i16>)
    ensures
        r matches Some(w) ==> has_bytes(data@, pos as int, 2) && w == le_i16(data@, pos as int),
        r is None <==> !has_bytes(data@, pos as int, 2),
{
    match read_u16(data, pos) {
        Some(w) => Some(
            #[verifier::truncate]
            (w as i16),
        ),
        None => None,
    }
}

/// Copies `n` bytes starting at `pos` into an owned buffer.
pub fn read_bytes(data: &[u8], pos: usize, n: usize) -> (r: Option<Vec<u8>>)
    ensures
        r matches Some(v) ==> has_bytes(data@, pos as int, n as int) && v@ == data@.subrange(
            pos as int,
            pos + n,
        ),
        r is None <==> !has_bytes(data@, pos as int, n as int),
{
    if n <= data.len() && pos <= data.len() - n {
        let len: usize = data.len();
        let mut v: Vec<u8> = Vec::new();
        let mut i: usize = 0;
        while i < n
            invariant
                pos + n <= len,
                len == data@.len(),
                i <= n,
                v@ == data@.subrange(pos as int, pos + i),
            decreases n - i,
        {
            v.push(data[pos + i]);
            i = i + 1;
            proof {
                assert(v@ =~= data@.subrange(pos as int, pos + i));
            }
        }
        Some(v)
    } else {
        None
    }
}

pub fn push_u16(v: &mut Vec<u8>, x: u16)
    ensures
        final(v)@ == old(v)@ + seq![(x % 0x100) as u8, (x / 0x100) as u8],
        final(v)@.len() == old(v)@.len() + 2,
        le_u16(final(v)@, old(v)@.len() as int) == x,
{
    v.push((x % 0x100) as u8);
    v.push((x / 0x100) as u8);
    proof {
        assert(v@ =~= old(v)@ + seq![(x % 0x100) as u8, (x / 0x100) as u8]);
    }
}

pub fn push_u32(v: &mut Vec<u8>, x: u32)
    ensures
        final(v)@ == old(v)@ + u32_le_bytes(x),
        final(v)@.len() == old(v)@.len() + 4,
        final(v)@.subrange(0, old(v)@.len() as int) == old(v)@,
        le_u32(final(v)@, old(v)@.len() as int) == x,
{
    let ghost base = v@.len() as int;
    push_u16(v, (x % 0x10000) as u16);
    push_u16(v, (x / 0x10000) as u16);
    proof {
        assert(v@ =~= old(v)@ + u32_le_bytes(x));
        assert(v@.subrange(0, base) =~= old(v)@);
        assert(le_u16(v@, base) == (x % 0x10000) as u16);
        assert(le_u16(v@, base + 2) == (x / 0x10000) as u16);
    }
}

pub fn push_u64(v: &mut Vec<u8>, x: u64)
    ensures
        final(v)@ == old(v)@ + u64_le_bytes(x),
        final(v)@.len() == old(v)@.len() + 8,
        final(v)@.subrange(0, old(v)@.len() as int) == old(v)@,
        le_u64(final(v)@, old(v)@.len() as int) == x,
{
    let ghost base = v@.len() as int;
    push_u32(v, (x % 0x1_0000_0000) as u32);
    push_u32(v, (x / 0x1_0000_0000) as u32);
    proof {
        assert(v@ =~= old(v)@ + u64_le_bytes(x));
        assert(v@.subrange(0, base) =~= old(v)@);
        assert(le_u32(v@, base) == (x % 0x1_0000_0000) as u32);
        assert(le_u32(v@, base + 4) == (x / 0x1_0000_0000) as u32);
    }
}

pub fn push_i32(v: &mut Vec<u8>, x: i32)
    ensures
        final(v)@ == old(v)@ + u32_le_bytes(i32_bits(x)),
        final(v)@.len() == old(v)@.len() + 4,
        final(v)@.subrange(0, old(v)@.len() as int) == old(v)@,
        le_i32(final(v)@, old(v)@.len() as int) == x,
{
    let w =
        #[verifier::truncate]
        (x as u32);
    proof {
        assert(w as i32 == x && w == i32_bits(x)) by (bit_vector)
            requires
                w ==
                #[verifier::truncate]
                (x as u32),
        ;
    }
    push_u32(v, w);
}

} // verus!
