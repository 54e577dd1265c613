//! The byte layout of the values that records are made of.
//!
//! A `u64` takes eight bytes, little end first. An optional `u64` takes a tag
//! byte, 0 or 1, and after a 1 the number. A text takes the length of its
//! UTF-8 form as a `u64` and then that form. Each layout comes with its
//! parser, which reads one value from the front of its input and returns the
//! rest, and with the proof that parsing gives back what was written.

use vstd::bytes::{
    lemma_auto_spec_u64_to_from_le_bytes, spec_u64_from_le_bytes, spec_u64_to_le_bytes,
    u64_from_le_bytes, u64_to_le_bytes,
};
use vstd::prelude::*;
use vstd::slice::{slice_subrange, slice_to_vec};
use vstd::string::StringSliceAdditionalSpecFns;
use vstd::utf8::{decode_utf8, encode_utf8, encode_utf8_decode_utf8, encode_utf8_valid_utf8, valid_utf8};

verus! {

pub open spec fn u64_bytes(value: u64) -> Seq<u8> {
    spec_u64_to_le_bytes(value)
}

pub open spec fn optional_bytes(value: Option<u64>) -> Seq<u8> {
    match value {
        None => seq![0u8],
        Some(number) => seq![1u8] + u64_bytes(number),
    }
}

pub open spec fn text_bytes(text: Seq<char>) -> Seq<u8> {
    u64_bytes(encode_utf8(text).len() as u64) + encode_utf8(text)
}

/// Whether the length of the text's UTF-8 form fits the length field.
pub open spec fn text_fits(text: Seq<char>) -> bool {
    encode_utf8(text).len() <= u64::MAX
}

pub open spec fn parse_u64(input: Seq<u8>) -> Option<(u64, Seq<u8>)> {
    if input.len() >= 8 {
        Some((spec_u64_from_le_bytes(input.take(8)), input.skip(8)))
    } else {
        None
    }
}

pub open spec fn parse_optional(input: Seq<u8>) -> Option<(Option<u64>, Seq<u8>)> {
    if input.len() == 0 {
        None
    } else if input[0] == 0 {
        Some((None, input.skip(1)))
    } else if input[0] == 1 {
        match parse_u64(input.skip(1)) {
            Some((number, rest)) => Some((Some(number), rest)),
            None => None,
        }
    } else {
        None
    }
}

/// What is left of the input behind a parsed value; empty where parsing failed.
pub open spec fn remainder<T>(parsed: Option<(T, Seq<u8>)>) -> Seq<u8> {
    match parsed {
        Some((_, rest)) => rest,
        None => Seq::empty(),
    }
}

pub open spec fn parse_text(input: Seq<u8>) -> Option<(Seq<char>, Seq<u8>)> {
    match parse_u64(input) {
        Some((length, rest)) => if length <= rest.len() && valid_utf8(rest.take(length as int)) {
            Some((decode_utf8(rest.take(length as int)), rest.skip(length as int)))
        } else {
            None
        },
        None => None,
    }
}

/// Parsing what was written for a `u64` gives the number and what followed.
pub proof fn lemma_parse_u64(value: u64, rest: Seq<u8>)
    ensures
        parse_u64(u64_bytes(value) + rest) == Some((value, rest)),
{
    lemma_auto_spec_u64_to_from_le_bytes();
    let input = u64_bytes(value) + rest;
    assert(input.take(8) =~= u64_bytes(value));
}

/// Parsing what was written for an optional `u64` gives it back.
pub proof fn lemma_parse_optional(value: Option<u64>, rest: Seq<u8>)
    ensures
        parse_optional(optional_bytes(value) + rest) == Some((value, rest)),
{
    let input = optional_bytes(value) + rest;
    match value {
        None => {},
        Some(number) => {
            lemma_parse_u64(number, rest);
            assert(input.skip(1) =~= u64_bytes(number) + rest);
        },
    }
}

/// Parsing what was written for a text gives it back.
pub proof fn lemma_parse_text(text: Seq<char>, rest: Seq<u8>)
    requires
        text_fits(text),
    ensures
        parse_text(text_bytes(text) + rest) == Some((text, rest)),
{
    let encoded = encode_utf8(text);
    let length = encoded.len() as u64;
    let input = text_bytes(text) + rest;
    lemma_parse_u64(length, encoded + rest);
    assert(input =~= u64_bytes(length) + (encoded + rest));
    assert((encoded + rest).take(length as int) =~= encoded);
    encode_utf8_valid_utf8(text);
    encode_utf8_decode_utf8(text);
}

/// Appends the bytes of `value` to `out`. `rest` is what the caller will
/// write behind them: the second clause lets it carry a whole layout along.
pub(crate) fn write_u64(out: &mut Vec<u8>, value: u64, Ghost(rest): Ghost<Seq<u8>>)
    ensures
        final(out)@ == old(out)@ + u64_bytes(value),
        final(out)@ + rest == old(out)@ + (u64_bytes(value) + rest),
{
    let mut bytes = u64_to_le_bytes(value);
    out.append(&mut bytes);
}

/// Appends the bytes of `value` to `out`, as `write_u64` does.
pub(crate) fn write_optional(out: &mut Vec<u8>, value: Option<u64>, Ghost(rest): Ghost<Seq<u8>>)
    ensures
        final(out)@ == old(out)@ + optional_bytes(value),
        final(out)@ + rest == old(out)@ + (optional_bytes(value) + rest),
{
    match value {
        None => {
            out.push(0u8);
        },
        Some(number) => {
            out.push(1u8);
            write_u64(out, number, Ghost(rest));
        },
    }
}

/// Appends the bytes of `text` to `out`, as `write_u64` does.
pub(crate) fn write_text(out: &mut Vec<u8>, text: &String, Ghost(rest): Ghost<Seq<u8>>)
    ensures
        final(out)@ == old(out)@ + text_bytes(text@),
        final(out)@ + rest == old(out)@ + (text_bytes(text@) + rest),
        text_fits(text@),
{
    let utf8 = text.as_str().as_bytes();
    let length: usize = utf8.len();
    write_u64(out, length as u64, Ghost(utf8@ + rest));
    let mut copy = slice_to_vec(utf8);
    out.append(&mut copy);
}

/// Reads a `u64` at `position`; on success also gives the position behind it.
pub fn read_u64(input: &[u8], position: usize) -> (read: Option<(u64, usize)>)
    requires
        position <= input@.len(),
    ensures
        match read {
            Some((value, next)) => position <= next <= input@.len() && parse_u64(
                input@.skip(position as int),
            ) == Some((value, input@.skip(next as int))),
            None => parse_u64(input@.skip(position as int)) is None,
        },
{
    if input.len() - position < 8 {
        return None;
    }
    let next: usize = position + 8;
    let value = u64_from_le_bytes(slice_subrange(input, position, next));
    proof {
        let tail = input@.skip(position as int);
        assert(tail.take(8) =~= input@.subrange(position as int, next as int));
    }
    Some((value, next))
}

/// Reads an optional `u64` at `position`; on success also gives the position
/// behind it.
pub fn read_optional(input: &[u8], position: usize) -> (read: Option<(Option<u64>, usize)>)
    requires
        position <= input@.len(),
    ensures
        match read {
            Some((value, next)) => position <= next <= input@.len() && parse_optional(
                input@.skip(position as int),
            ) == Some((value, input@.skip(next as int))),
            None => parse_optional(input@.skip(position as int)) is None,
        },
{
    if position >= input.len() {
        return None;
    }
    let tag: u8 = input[position];
    let after_tag: usize = position + 1;
    proof {
        let tail = input@.skip(position as int);
        assert(tail.skip(1) =~= input@.skip(after_tag as int));
    }
    if tag == 0 {
        Some((None, after_tag))
    } else if tag == 1 {
        match read_u64(input, after_tag) {
            Some((number, next)) => Some((Some(number), next)),
            None => None,
        }
    } else {
        None
    }
}

/// Reads a text at `position`; on success also gives the position behind it.
pub fn read_text(input: &[u8], position: usize) -> (read: Option<(String, usize)>)
    requires
        position <= input@.len(),
    ensures
        match read {
            Some((text, next)) => position <= next <= input@.len() && parse_text(
                input@.skip(position as int),
            ) == Some((text@, input@.skip(next as int))),
            None => parse_text(input@.skip(position as int)) is None,
        },
{
    let (length, start) = match read_u64(input, position) {
        Some(read) => read,
        None => { return None; },
    };
    if length > (input.len() - start) as u64 {
        return None;
    }
    let next: usize = start + length as usize;
    let utf8 = slice_to_vec(slice_subrange(input, start, next));
    proof {
        let rest = input@.skip(start as int);
        assert(rest.take(length as int) =~= utf8@);
    }
    match String::from_utf8(utf8) {
        Ok(text) => {
            proof {
                encode_utf8_decode_utf8(text@);
            }
            Some((text, next))
        },
        Err(_) => None,
    }
}

} // verus!
