//! Text decoding through `encoding_rs`, and the small set of character-level
//! conversions the decoders need.
//!
//! The shell link format stores strings either in UTF-16LE or in a
//! caller-selected 8-bit code page. Decoding such bytes into text is the job
//! of `encoding_rs`; the wrappers here give those calls contracts in terms of
//! named, deterministic functions of the input bytes.

use vstd::prelude::*;
use vstd::std_specs::iter::IteratorSpec;

verus! {

/// The text that decoding `bytes` under Windows code page number `cp`
/// yields, or `None` when the code page is unknown here or the bytes are
/// malformed for it. A function of the two arguments alone.
pub uninterp spec fn cp_decoded(cp: u16, bytes: Seq<u8>) -> Option<Seq<char>>;

/// The text that decoding `bytes` as UTF-16LE yields, or `None` when the
/// bytes are malformed. A function of the bytes alone.
pub uninterp spec fn utf16le_decoded(bytes: Seq<u8>) -> Option<Seq<char>>;

/// The UTF-16 code units of a string: a function of its characters alone.
pub uninterp spec fn utf16_units(s: Seq<char>) -> Seq<u16>;

/// Relies on `encoding_rs::Encoding::for_label` to resolve a Windows code
/// page number through its `windows-*` label, and on
/// `encoding_rs::Encoding::decode` for the table-driven decoding itself.
/// Both are deterministic in their arguments, so the result is
/// `cp_decoded(cp, bytes)`; `None` covers an unknown code page and
/// malformed input alike.
#[verifier::external_body]
pub fn decode_codepage(cp: u16, bytes: &[u8]) -> (r: Option<String>)
    ensures
        r matches Some(s) ==> cp_decoded(cp, bytes@) matches Some(t) && s@ == t,
        r is None <==> cp_decoded(cp, bytes@) is None,
{
    let label = format!("windows-{}", cp);
    match encoding_rs::Encoding::for_label(label.as_bytes()) {
        None => None,
        Some(enc) => {
            let (cow, _, had_errors) = enc.decode(bytes);
            if had_errors {
                None
            } else {
                Some(cow.into_owned())
            }
        },
    }
}

/// Relies on `encoding_rs::UTF_16LE.decode`: the decoded text is a function
/// of the input bytes alone; `None` when the bytes contain malformed
/// UTF-16LE.
#[verifier::external_body]
pub fn decode_utf16le(bytes: &[u8]) -> (r: Option<String>)
    ensures
        r matches Some(s) ==> utf16le_decoded(bytes@) matches Some(t) && s@ == t,
        r is None <==> utf16le_decoded(bytes@) is None,
{
    let (cow, _, had_errors) = encoding_rs::UTF_16LE.decode(bytes);
    if had_errors {
        None
    } else {
        Some(cow.into_owned())
    }
}

/// Relies on `str::encode_utf16`: the UTF-16 code units of a string are a
/// function of its characters alone.
#[verifier::external_body]
pub fn encode_utf16_units(s: &str) -> (r: Vec<u16>)
    ensures
        r@ == utf16_units(s@),
{
    s.encode_utf16().collect()
}

/// Relies on `String`'s `FromIterator<char>`: collecting characters yields
/// the string made of exactly those characters in order.
#[verifier::external_body]
pub fn string_from_chars(v: &Vec<char>) -> (r: String)
    ensures
        r@ == v@,
{
    v.iter().collect()
}

/// The characters of a string, as a vector that verified code can index.
pub fn chars_vec(s: &str) -> (v: Vec<char>)
    ensures
        v@ == s@,
{
    let mut it = s.chars();
    let mut v: Vec<char> = Vec::new();
    loop
        invariant
            it.decrease() is Some,
            v@ + it.remaining() == s@,
        ensures
            v@ == s@,
        decreases it.decrease()->0,
    {
        match it.next() {
            Some(c) => {
                v.push(c);
            },
            None => {
                proof {
                    assert(it.remaining().len() == 0);
                    assert(v@ =~= s@);
                }
                break ;
            },
        }
    }
    v
}

} // verus!
