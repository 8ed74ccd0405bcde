//! GUIDs in packet representation: the first three fields little-endian,
//! the last eight bytes a raw sequence.

use vstd::prelude::*;

use crate::bytes::has_bytes;
use crate::bytes::le_u16;
use crate::bytes::le_u32;
use crate::bytes::lemma_u16_le_bytes_round;
use crate::bytes::lemma_u32_le_bytes_round;
use crate::bytes::push_u16;
use crate::bytes::push_u32;
use crate::bytes::u16_le_bytes;
use crate::bytes::u32_le_bytes;
use crate::encoding::string_from_chars;

verus! {

/// A 128-bit identifier in GUID packet representation.
#[derive(Clone, Copy, Debug, PartialEq, Eq)]
pub struct Guid {
    pub data1: u32,
    pub data2: u16,
    pub data3: u16,
    pub data4: [u8; 8],
}

/// The GUID a 16-byte packet at `i` denotes.
pub open spec fn spec_guid_of(d: Seq<u8>, i: int) -> Guid {
    Guid {
        data1: le_u32(d, i),
        data2: le_u16(d, i + 4),
        data3: le_u16(d, i + 6),
        data4: [
            d[i + 8],
            d[i + 9],
            d[i + 10],
            d[i + 11],
            d[i + 12],
            d[i + 13],
            d[i + 14],
            d[i + 15],
        ],
    }
}

/// The 16-byte packet representation of a GUID.
pub open spec fn spec_guid_bytes(g: Guid) -> Seq<u8> {
    u32_le_bytes(g.data1) + u16_le_bytes(g.data2) + u16_le_bytes(g.data3) + g.data4@
}

/// Law: decoding a 16-byte packet and re-encoding it yields the original
/// bytes.
pub proof fn lemma_guid_round_trip(d: Seq<u8>, i: int)
    requires
        0 <= i,
        i + 16 <= d.len(),
    ensures
        spec_guid_bytes(spec_guid_of(d, i)) == d.subrange(i, i + 16),
{
    lemma_u32_le_bytes_round(d, i);
    lemma_u16_le_bytes_round(d, i + 4);
    lemma_u16_le_bytes_round(d, i + 6);
    assert(spec_guid_bytes(spec_guid_of(d, i)) =~= d.subrange(i, i + 16));
}

/// The hexadecimal digit for a nibble, in lower case.
pub open spec fn hex_char(n: int) -> char {
    if n == 0 {
        '0'
    } else if n == 1 {
        '1'
    } else if n == 2 {
        '2'
    } else if n == 3 {
        '3'
    } else if n == 4 {
        '4'
    } else if n == 5 {
        '5'
    } else if n == 6 {
        '6'
    } else if n == 7 {
        '7'
    } else if n == 8 {
        '8'
    } else if n == 9 {
        '9'
    } else if n == 10 {
        'a'
    } else if n == 11 {
        'b'
    } else if n == 12 {
        'c'
    } else if n == 13 {
        'd'
    } else if n == 14 {
        'e'
    } else {
        'f'
    }
}

fn hex_char_exec(n: u8) -> (r: char)
    requires
        n < 16,
    ensures
        r == hex_char(n as int),
{
    if n == 0 {
        '0'
    } else if n == 1 {
        '1'
    } else if n == 2 {
        '2'
    } else if n == 3 {
        '3'
    } else if n == 4 {
        '4'
    } else if n == 5 {
        '5'
    } else if n == 6 {
        '6'
    } else if n == 7 {
        '7'
    } else if n == 8 {
        '8'
    } else if n == 9 {
        '9'
    } else if n == 10 {
        'a'
    } else if n == 11 {
        'b'
    } else if n == 12 {
        'c'
    } else if n == 13 {
        'd'
    } else if n == 14 {
        'e'
    } else {
        'f'
    }
}

/// The hexadecimal form of a value below `16^digits`, `digits` characters
/// wide, most significant digit first.
pub open spec fn hex_digits(x: int, digits: int) -> Seq<char>
    decreases digits,
{
    if digits <= 0 {
        Seq::empty()
    } else {
        hex_digits(x / 16, digits - 1) + seq![hex_char(x % 16)]
    }
}

fn push_hex_u32(out: &mut Vec<char>, x: u32, digits: u8)
    requires
        digits <= 8,
    ensures
        final(out)@ == old(out)@ + hex_digits(x as int, digits as int),
    decreases digits,
{
    if digits == 0 {
        proof {
            assert(out@ =~= old(out)@ + hex_digits(x as int, 0));
        }
    } else {
        push_hex_u32(out, x / 16, digits - 1);
        out.push(hex_char_exec((x % 16) as u8));
        proof {
            assert(out@ =~= old(out)@ + hex_digits(x as int, digits as int));
        }
    }
}

/// The canonical 36-character textual form of a GUID:
/// `xxxxxxxx-xxxx-xxxx-xxxx-xxxxxxxxxxxx`.
pub open spec fn spec_guid_string(g: Guid) -> Seq<char> {
    hex_digits(g.data1 as int, 8) + seq!['-'] + hex_digits(g.data2 as int, 4) + seq!['-']
        + hex_digits(g.data3 as int, 4) + seq!['-'] + hex_digits(g.data4@[0] as int, 2)
        + hex_digits(g.data4@[1] as int, 2) + seq!['-'] + hex_digits(g.data4@[2] as int, 2)
        + hex_digits(g.data4@[3] as int, 2) + hex_digits(g.data4@[4] as int, 2) + hex_digits(
        g.data4@[5] as int,
        2,
    ) + hex_digits(g.data4@[6] as int, 2) + hex_digits(g.data4@[7] as int, 2)
}

impl Guid {
    /// Decodes the 16-byte packet at `pos`.
    pub fn read(data: &[u8], pos: usize) -> (r: Option<(Guid, usize)>)
        ensures
            r matches Some((g, end)) ==> has_bytes(data@, pos as int, 16) && g == spec_guid_of(
                data@,
                pos as int,
            ) && end == pos + 16,
            r is None <==> !has_bytes(data@, pos as int, 16),
    {
        let len: usize = data.len();
        if !(16 <= len && pos <= len - 16) {
            return None;
        }
        let data1 = match crate::bytes::read_u32(data, pos) {
            Some(w) => w,
            None => 0,
        };
        let data2 = match crate::bytes::read_u16(data, pos + 4) {
            Some(w) => w,
            None => 0,
        };
        let data3 = match crate::bytes::read_u16(data, pos + 6) {
            Some(w) => w,
            None => 0,
        };
        let data4: [u8; 8] = [
            data[pos + 8],
            data[pos + 9],
            data[pos + 10],
            data[pos + 11],
            data[pos + 12],
            data[pos + 13],
            data[pos + 14],
            data[pos + 15],
        ];
        Some((Guid { data1, data2, data3, data4 }, pos + 16))
    }

    /// Appends the 16-byte packet representation.
    pub fn write(&self, out: &mut Vec<u8>)
        ensures
            final(out)@ == old(out)@ + spec_guid_bytes(*self),
    {
        push_u32(out, self.data1);
        push_u16(out, self.data2);
        push_u16(out, self.data3);
        let mut i: usize = 0;
        let ghost mid = out@;
        while i < 8
            invariant
                i <= 8,
                out@ == mid + self.data4@.subrange(0, i as int),
            decreases 8 - i,
        {
            out.push(self.data4[i]);
            i = i + 1;
            proof {
                assert(out@ =~= mid + self.data4@.subrange(0, i as int));
            }
        }
        proof {
            assert(self.data4@.subrange(0, 8) =~= self.data4@);
            assert(out@ =~= old(out)@ + spec_guid_bytes(*self));
        }
    }

    /// The canonical lower-case hexadecimal form.
    pub fn to_guid_string(&self) -> (r: String)
        ensures
            r@ == spec_guid_string(*self),
    {
        let mut v: Vec<char> = Vec::new();
        push_hex_u32(&mut v, self.data1, 8);
        v.push('-');
        push_hex_u32(&mut v, self.data2 as u32, 4);
        v.push('-');
        push_hex_u32(&mut v, self.data3 as u32, 4);
        v.push('-');
        push_hex_u32(&mut v, self.data4[0] as u32, 2);
        push_hex_u32(&mut v, self.data4[1] as u32, 2);
        v.push('-');
        push_hex_u32(&mut v, self.data4[2] as u32, 2);
        push_hex_u32(&mut v, self.data4[3] as u32, 2);
        push_hex_u32(&mut v, self.data4[4] as u32, 2);
        push_hex_u32(&mut v, self.data4[5] as u32, 2);
        push_hex_u32(&mut v, self.data4[6] as u32, 2);
        push_hex_u32(&mut v, self.data4[7] as u32, 2);
        proof {
            assert(v@ =~= spec_guid_string(*self));
        }
        string_from_chars(&v)
    }
}

} // verus!
