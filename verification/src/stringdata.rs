//! The five optional string fields after LinkInfo, each gated by a header
//! flag and encoded per the header's Unicode flag.

use vstd::prelude::*;

use crate::Error;
use crate::bytes::le_u16;
use crate::bytes::u16_le_bytes;
use crate::encoding::encode_utf16_units;
use crate::encoding::utf16_units;
use crate::header::HAS_ARGUMENTS;
use crate::header::HAS_ICON_LOCATION;
use crate::header::HAS_NAME;
use crate::header::HAS_RELATIVE_PATH;
use crate::header::HAS_WORKING_DIR;
use crate::header::IS_UNICODE;
use crate::header::LinkFlags;
use crate::header::flag_set;
use crate::strings::StringEncoding;
use crate::strings::encoding_from_flags;
use crate::strings::read_sized;
use crate::strings::spec_decoded;
use crate::strings::spec_sized_extent;

verus! {

/// The five optional strings, in their stored order.
#[derive(Clone, Debug, Default)]
pub struct StringData {
    /// A description of the shortcut, shown to end users.
    pub name_string: Option<String>,
    /// The location of the target relative to the link file.
    pub relative_path: Option<String>,
    /// The working directory used when activating the target.
    pub working_dir: Option<String>,
    /// The command-line arguments passed when activating the target.
    pub command_line_arguments: Option<String>,
    /// The location of the icon shown for the link.
    pub icon_location: Option<String>,
}

/// What decoding one optional slot yields: the text when the slot is
/// present and well formed, `None` for the whole when it is not.
pub open spec fn spec_parse_slot(
    enc: StringEncoding,
    d: Seq<u8>,
    pos: int,
    present: bool,
) -> Option<(Option<Seq<char>>, int)> {
    if !present {
        Some((None::<Seq<char>>, pos))
    } else {
        match spec_sized_extent(enc, d, pos) {
            Some((start, stop)) => match spec_decoded(enc, d.subrange(start, stop)) {
                Some(t) => Some((Some(t), stop)),
                None => None,
            },
            None => None,
        }
    }
}

/// The view of one decoded slot.
pub open spec fn slot_view(s: Option<String>) -> Option<Seq<char>> {
    match s {
        Some(t) => Some(t@),
        None => None,
    }
}

/// Where one optional slot ends: unchanged when absent, just past the
/// prefixed string when present and well formed.
pub open spec fn spec_slot_end(enc: StringEncoding, d: Seq<u8>, pos: int, present: bool) -> int {
    if !present {
        pos
    } else {
        match spec_sized_extent(enc, d, pos) {
            Some((_, stop)) => stop,
            None => pos,
        }
    }
}

/// Where the five slots end, under the header flags.
pub open spec fn spec_stringdata_end(flags: u32, enc: StringEncoding, d: Seq<u8>, pos: int) -> int {
    let p1 = spec_slot_end(enc, d, pos, flag_set(flags, HAS_NAME));
    let p2 = spec_slot_end(enc, d, p1, flag_set(flags, HAS_RELATIVE_PATH));
    let p3 = spec_slot_end(enc, d, p2, flag_set(flags, HAS_WORKING_DIR));
    let p4 = spec_slot_end(enc, d, p3, flag_set(flags, HAS_ARGUMENTS));
    spec_slot_end(enc, d, p4, flag_set(flags, HAS_ICON_LOCATION))
}

/// True when all five slots parse, under the header flags.
pub open spec fn spec_stringdata_parses(
    flags: u32,
    enc: StringEncoding,
    d: Seq<u8>,
    pos: int,
) -> bool {
    let p1 = spec_slot_end(enc, d, pos, flag_set(flags, HAS_NAME));
    let p2 = spec_slot_end(enc, d, p1, flag_set(flags, HAS_RELATIVE_PATH));
    let p3 = spec_slot_end(enc, d, p2, flag_set(flags, HAS_WORKING_DIR));
    let p4 = spec_slot_end(enc, d, p3, flag_set(flags, HAS_ARGUMENTS));
    &&& spec_parse_slot(enc, d, pos, flag_set(flags, HAS_NAME)) is Some
    &&& spec_parse_slot(enc, d, p1, flag_set(flags, HAS_RELATIVE_PATH)) is Some
    &&& spec_parse_slot(enc, d, p2, flag_set(flags, HAS_WORKING_DIR)) is Some
    &&& spec_parse_slot(enc, d, p3, flag_set(flags, HAS_ARGUMENTS)) is Some
    &&& spec_parse_slot(enc, d, p4, flag_set(flags, HAS_ICON_LOCATION)) is Some
}

/// What the five decoded slots hold: each one the text of its stored
/// string, in the fixed order, starting at `pos`.
pub open spec fn spec_stringdata_matches(
    s: StringData,
    flags: u32,
    enc: StringEncoding,
    d: Seq<u8>,
    pos: int,
) -> bool {
    let p1 = spec_slot_end(enc, d, pos, flag_set(flags, HAS_NAME));
    let p2 = spec_slot_end(enc, d, p1, flag_set(flags, HAS_RELATIVE_PATH));
    let p3 = spec_slot_end(enc, d, p2, flag_set(flags, HAS_WORKING_DIR));
    let p4 = spec_slot_end(enc, d, p3, flag_set(flags, HAS_ARGUMENTS));
    &&& (spec_parse_slot(enc, d, pos, flag_set(flags, HAS_NAME)) matches Some(x) && slot_view(
        s.name_string,
    ) == x.0)
    &&& (spec_parse_slot(enc, d, p1, flag_set(flags, HAS_RELATIVE_PATH)) matches Some(x)
        && slot_view(s.relative_path) == x.0)
    &&& (spec_parse_slot(enc, d, p2, flag_set(flags, HAS_WORKING_DIR)) matches Some(x)
        && slot_view(s.working_dir) == x.0)
    &&& (spec_parse_slot(enc, d, p3, flag_set(flags, HAS_ARGUMENTS)) matches Some(x) && slot_view(
        s.command_line_arguments,
    ) == x.0)
    &&& (spec_parse_slot(enc, d, p4, flag_set(flags, HAS_ICON_LOCATION)) matches Some(x)
        && slot_view(s.icon_location) == x.0)
}

impl StringData {
    /// Each slot is present exactly when its header flag is set.
    pub open spec fn presence_matches(&self, flags: u32) -> bool {
        &&& self.name_string is Some <==> flag_set(flags, HAS_NAME)
        &&& self.relative_path is Some <==> flag_set(flags, HAS_RELATIVE_PATH)
        &&& self.working_dir is Some <==> flag_set(flags, HAS_WORKING_DIR)
        &&& self.command_line_arguments is Some <==> flag_set(flags, HAS_ARGUMENTS)
        &&& self.icon_location is Some <==> flag_set(flags, HAS_ICON_LOCATION)
    }

    /// Decodes the five optional slots in their fixed order, each present
    /// iff its flag bit is set, each a size-prefixed string in UTF-16LE
    /// when the Unicode flag is set and in the caller's code page
    /// otherwise.
    pub fn read(data: &[u8], pos: usize, flags: &LinkFlags, default_codepage: u16) -> (r: Result<
        (StringData, usize),
        Error,
    >)
        ensures
            ({
                let enc = if flag_set(flags@, IS_UNICODE) {
                    StringEncoding::Unicode
                } else {
                    StringEncoding::CodePage(default_codepage)
                };
                &&& (r matches Ok((s, end)) ==> {
                    &&& s.presence_matches(flags@)
                    &&& spec_parse_slot(enc, data@, pos as int, flag_set(flags@, HAS_NAME))
                        matches Some((t1, p1))
                    &&& slot_view(s.name_string) == t1
                    &&& spec_parse_slot(enc, data@, p1, flag_set(flags@, HAS_RELATIVE_PATH))
                        matches Some((t2, p2))
                    &&& slot_view(s.relative_path) == t2
                    &&& spec_parse_slot(enc, data@, p2, flag_set(flags@, HAS_WORKING_DIR))
                        matches Some((t3, p3))
                    &&& slot_view(s.working_dir) == t3
                    &&& spec_parse_slot(enc, data@, p3, flag_set(flags@, HAS_ARGUMENTS))
                        matches Some((t4, p4))
                    &&& slot_view(s.command_line_arguments) == t4
                    &&& spec_parse_slot(enc, data@, p4, flag_set(flags@, HAS_ICON_LOCATION))
                        matches Some((t5, p5))
                    &&& slot_view(s.icon_location) == t5
                    &&& end == p5
                    &&& pos <= end
                    &&& spec_stringdata_matches(s, flags@, enc, data@, pos as int)
                    &&& end == spec_stringdata_end(flags@, enc, data@, pos as int)
                })
                &&& (r matches Err(e) ==> (e matches Error::Io { .. } || e
                    matches Error::TruncatedStringData || e matches Error::InvalidEncoding { .. }))
                &&& (r is Err <==> !spec_stringdata_parses(flags@, enc, data@, pos as int))
            }),
    {
        let enc = encoding_from_flags(flags.is_unicode(), default_codepage);
        let mut cur: usize = pos;

        let name_string = if flags.has_name() {
            match read_sized(data, cur, &enc) {
                Ok((s, end)) => {
                    proof {
                        assert(pos <= end);
                    }
                    cur = end;
                    Some(s)
                },
                Err(e) => {
                    return Err(e);
                },
            }
        } else {
            None
        };
        let relative_path = if flags.has_relative_path() {
            match read_sized(data, cur, &enc) {
                Ok((s, end)) => {
                    cur = end;
                    Some(s)
                },
                Err(e) => {
                    return Err(e);
                },
            }
        } else {
            None
        };
        let working_dir = if flags.has_working_dir() {
            match read_sized(data, cur, &enc) {
                Ok((s, end)) => {
                    cur = end;
                    Some(s)
                },
                Err(e) => {
                    return Err(e);
                },
            }
        } else {
            None
        };
        let command_line_arguments = if flags.has_arguments() {
            match read_sized(data, cur, &enc) {
                Ok((s, end)) => {
                    cur = end;
                    Some(s)
                },
                Err(e) => {
                    return Err(e);
                },
            }
        } else {
            None
        };
        let icon_location = if flags.has_icon_location() {
            match read_sized(data, cur, &enc) {
                Ok((s, end)) => {
                    cur = end;
                    Some(s)
                },
                Err(e) => {
                    return Err(e);
                },
            }
        } else {
            None
        };
        Ok(
            (
                StringData {
                    name_string,
                    relative_path,
                    working_dir,
                    command_line_arguments,
                    icon_location,
                },
                cur,
            ),
        )
    }
}

/// The low byte of a character's scalar value, the lossy 8-bit storage the
/// non-Unicode branch of `to_data` uses.
pub open spec fn char_low_byte(c: char) -> u8 {
    (c as u32 % 0x100) as u8
}

/// The little-endian bytes of a run of 16-bit units.
pub open spec fn units_le_bytes(u: Seq<u16>) -> Seq<u8>
    decreases u.len(),
{
    if u.len() == 0 {
        Seq::empty()
    } else {
        u16_le_bytes(u[0]) + units_le_bytes(u.drop_first())
    }
}

/// The stored bytes of one string field: a 16-bit character count, then
/// the characters' low bytes (code-page form) or their UTF-16LE code
/// units (Unicode form); `None` when the count does not fit in 16 bits.
pub open spec fn spec_to_data(t: Seq<char>, unicode: bool) -> Option<Seq<u8>> {
    if !unicode {
        if t.len() <= 0xFFFF {
            Some(u16_le_bytes(t.len() as u16) + Seq::new(t.len(), |i: int| char_low_byte(t[i])))
        } else {
            None
        }
    } else {
        if utf16_units(t).len() <= 0xFFFF {
            Some(u16_le_bytes(utf16_units(t).len() as u16) + units_le_bytes(utf16_units(t)))
        } else {
            None
        }
    }
}

/// Serialises one string field as `spec_to_data` describes.
pub fn to_data(s: &str, flags: &LinkFlags) -> (r: Option<Vec<u8>>)
    ensures
        r matches Some(v) ==> spec_to_data(s@, flag_set(flags@, IS_UNICODE)) matches Some(bs) && v@
            == bs,
        r is None <==> spec_to_data(s@, flag_set(flags@, IS_UNICODE)) is None,
{
    if !flags.is_unicode() {
        let chars = crate::encoding::chars_vec(s);
        if chars.len() > 0xFFFF {
            return None;
        }
        let mut v: Vec<u8> = Vec::new();
        crate::bytes::push_u16(&mut v, chars.len() as u16);
        let ghost mid = v@;
        let mut i: usize = 0;
        while i < chars.len()
            invariant
                i <= chars@.len(),
                chars@ == s@,
                v@ == mid + Seq::new(i as nat, |j: int| char_low_byte(s@[j])),
            decreases chars@.len() - i,
        {
            let code = chars[i] as u32;
            v.push((code % 0x100) as u8);
            i = i + 1;
            proof {
                assert(v@ =~= mid + Seq::new(i as nat, |j: int| char_low_byte(s@[j])));
            }
        }
        Some(v)
    } else {
        let units = encode_utf16_units(s);
        if units.len() > 0xFFFF {
            return None;
        }
        let mut v: Vec<u8> = Vec::new();
        crate::bytes::push_u16(&mut v, units.len() as u16);
        let ghost mid = v@;
        let mut i: usize = 0;
        while i < units.len()
            invariant
                i <= units@.len(),
                units@ == utf16_units(s@),
                v@ == mid + units_le_bytes(units@.take(i as int)),
            decreases units@.len() - i,
        {
            let ghost before = v@;
            crate::bytes::push_u16(&mut v, units[i]);
            i = i + 1;
            proof {
                lemma_units_le_bytes_take(units@, i as int);
                assert(v@ =~= mid + units_le_bytes(units@.take(i as int)));
            }
        }
        proof {
            assert(units@.take(units@.len() as int) =~= units@);
        }
        Some(v)
    }
}

/// Taking one more unit appends exactly its two bytes.
proof fn lemma_units_le_bytes_take(u: Seq<u16>, i: int)
    requires
        0 < i <= u.len(),
    ensures
        units_le_bytes(u.take(i)) == units_le_bytes(u.take(i - 1)) + u16_le_bytes(u[i - 1]),
    decreases i,
{
    if i == 1 {
        assert(u.take(1).drop_first() =~= Seq::<u16>::empty());
        assert(u.take(0) =~= Seq::<u16>::empty());
        assert(u.take(1)[0] == u[0]);
        assert(u.take(1).len() == 1);
        assert(units_le_bytes(u.take(1)) == u16_le_bytes(u.take(1)[0]) + units_le_bytes(
            u.take(1).drop_first(),
        ));
        assert(units_le_bytes(u.take(1).drop_first()) == units_le_bytes(Seq::<u16>::empty()));
        assert(units_le_bytes(Seq::<u16>::empty()) =~= Seq::<u8>::empty());
        assert(units_le_bytes(u.take(1)) =~= u16_le_bytes(u[0]));
        assert(units_le_bytes(u.take(1)) =~= units_le_bytes(u.take(0)) + u16_le_bytes(u[0]));
    } else {
        lemma_units_le_bytes_take(u.drop_first(), i - 1);
        assert(u.take(i).drop_first() =~= u.drop_first().take(i - 1));
        assert(u.take(i - 1).drop_first() =~= u.drop_first().take(i - 2));
        assert(u.take(i)[0] == u[0]);
        assert(u.take(i - 1)[0] == u[0]);
        assert(units_le_bytes(u.take(i)) == u16_le_bytes(u[0]) + units_le_bytes(
            u.drop_first().take(i - 1),
        ));
        assert(units_le_bytes(u.take(i - 1)) == u16_le_bytes(u[0]) + units_le_bytes(
            u.drop_first().take(i - 2),
        ));
        assert(u.drop_first()[i - 2] == u[i - 1]);
        assert(units_le_bytes(u.take(i)) =~= units_le_bytes(u.take(i - 1)) + u16_le_bytes(
            u[i - 1],
        ));
    }
}

} // verus!
