//! The wire format, shape by shape, at the specification level.
//!
//! For every shape the encoder can emit, this module defines the byte
//! run it writes and the matching partial decode function, together
//! with the round-trip laws relating them: decoding the encoding of a
//! value yields that value and consumes exactly its bytes, whatever
//! follows them.

use crate::util::{be_fold, lemma_be_fold_min_be_bytes, lemma_min_be_bytes_bounded_len,
    min_be_bytes, spec_encode_len_large};
use vstd::prelude::*;
use vstd::utf8::{decode_utf8, encode_utf8, valid_utf8};

verus! {

/// The one-byte encoding of a boolean.
pub open spec fn spec_encode_bool(v: bool) -> Seq<u8> {
    seq![if v { 1u8 } else { 0u8 }]
}

/// The encoding of a unicode scalar: a small-length byte holding the
/// UTF-8 width, then the UTF-8 bytes.
pub open spec fn spec_encode_char(c: char) -> Seq<u8> {
    seq![encode_utf8(seq![c]).len() as u8] + encode_utf8(seq![c])
}

/// The encoding of a dynamically sized byte run: a large-length prefix,
/// then the bytes themselves.
pub open spec fn spec_encode_framed(b: Seq<u8>) -> Seq<u8> {
    spec_encode_len_large(b.len()) + b
}

/// The encoding of text: its UTF-8 bytes, framed.
pub open spec fn spec_encode_str(s: Seq<char>) -> Seq<u8> {
    spec_encode_framed(encode_utf8(s))
}

/// Decodes a boolean from the front of a byte run: `0` or `1`, any
/// other leading byte is invalid.
pub open spec fn spec_decode_bool(s: Seq<u8>) -> Option<(bool, Seq<u8>)> {
    if s.len() >= 1 && (s[0] == 0 || s[0] == 1) {
        Some((s[0] == 1, s.skip(1)))
    } else {
        None
    }
}

/// Decodes an optional's presence marker from the front of a byte run:
/// `0` for absent, `1` for present, anything else is invalid.
pub open spec fn spec_decode_option_tag(s: Seq<u8>) -> Option<(bool, Seq<u8>)> {
    spec_decode_bool(s)
}

/// Decodes a large length from the front of a byte run: the tier-1
/// count byte, then that many big-endian tier-2 bytes.
pub open spec fn spec_decode_len(s: Seq<u8>) -> Option<(nat, Seq<u8>)> {
    if s.len() < 1 {
        None
    } else {
        let k = s[0] as int;
        if s.len() < 1 + k {
            None
        } else {
            Some((be_fold(s.subrange(1, 1 + k)), s.skip(1 + k)))
        }
    }
}

/// Decodes a framed byte run from the front of a byte run.
pub open spec fn spec_decode_framed(s: Seq<u8>) -> Option<(Seq<u8>, Seq<u8>)> {
    match spec_decode_len(s) {
        Some((len, rest)) => if rest.len() >= len {
            Some((rest.take(len as int), rest.skip(len as int)))
        } else {
            None
        },
        None => None,
    }
}

/// Decodes a unicode scalar from the front of a byte run: a width byte
/// between 1 and 4, then that many bytes of valid UTF-8, of which the
/// first decoded scalar is the result.
pub open spec fn spec_decode_char(s: Seq<u8>) -> Option<(char, Seq<u8>)> {
    if s.len() < 1 {
        None
    } else {
        let w = s[0] as int;
        if !(1 <= w <= 4) || s.len() < 1 + w {
            None
        } else {
            let eb = s.subrange(1, 1 + w);
            if valid_utf8(eb) && decode_utf8(eb).len() >= 1 {
                Some((decode_utf8(eb)[0], s.skip(1 + w)))
            } else {
                None
            }
        }
    }
}

/// Decodes text from the front of a byte run: a framed byte run that
/// must be valid UTF-8.
pub open spec fn spec_decode_str(s: Seq<u8>) -> Option<(Seq<char>, Seq<u8>)> {
    match spec_decode_framed(s) {
        Some((b, rest)) => if valid_utf8(b) {
            Some((decode_utf8(b), rest))
        } else {
            None
        },
        None => None,
    }
}

/// Decodes a tagged-union variant tag from the front of a byte run.
pub open spec fn spec_decode_variant_tag(s: Seq<u8>) -> Option<(u8, Seq<u8>)> {
    if s.len() >= 1 {
        Some((s[0], s.skip(1)))
    } else {
        None
    }
}

/// A single character encodes as its scalar value alone, in one to
/// four bytes.
pub proof fn lemma_encode_utf8_singleton(c: char)
    ensures
        encode_utf8(seq![c]) =~= vstd::utf8::encode_scalar(c as u32),
        1 <= encode_utf8(seq![c]).len() <= 4,
{
    assert(seq![c].drop_first() =~= Seq::<char>::empty());
    assert(encode_utf8(Seq::<char>::empty()) =~= Seq::<u8>::empty());
    assert(vstd::utf8::encode_scalar(c as u32) + Seq::<u8>::empty() =~= vstd::utf8::encode_scalar(
        c as u32,
    ));
    vstd::utf8::char_is_scalar(c);
}

/// Round-trip: a boolean decodes from its own encoding, leaving
/// whatever follows untouched.
pub proof fn lemma_bool_round_trip(v: bool, rest: Seq<u8>)
    ensures
        spec_decode_bool(spec_encode_bool(v) + rest) == Some((v, rest)),
{
    assert((spec_encode_bool(v) + rest).skip(1) =~= rest);
}

/// Round-trip: an optional's presence marker decodes from its own
/// encoding.
pub proof fn lemma_option_marker_round_trip(present: bool, rest: Seq<u8>)
    ensures
        spec_decode_option_tag(seq![if present { 1u8 } else { 0u8 }] + rest) == Some((
            present,
            rest,
        )),
{
    lemma_bool_round_trip(present, rest);
}

/// Round-trip: a variant tag decodes from its own encoding.
pub proof fn lemma_variant_tag_round_trip(tag: u8, rest: Seq<u8>)
    ensures
        spec_decode_variant_tag(seq![tag] + rest) == Some((tag, rest)),
{
    assert((seq![tag] + rest).skip(1) =~= rest);
}

/// Round-trip: a large length decodes from its own canonical encoding.
pub proof fn lemma_len_round_trip(n: nat, rest: Seq<u8>)
    requires
        min_be_bytes(n).len() < 256,
    ensures
        spec_decode_len(spec_encode_len_large(n) + rest) == Some((n, rest)),
{
    let s = spec_encode_len_large(n) + rest;
    let k = min_be_bytes(n).len() as int;
    assert(s[0] == k as u8);
    assert(s.subrange(1, 1 + k) =~= min_be_bytes(n));
    lemma_be_fold_min_be_bytes(n);
    assert(s.skip(1 + k) =~= rest);
}

/// Round-trip: a framed byte run decodes from its own encoding.
pub proof fn lemma_framed_round_trip(b: Seq<u8>, rest: Seq<u8>)
    requires
        b.len() <= usize::MAX,
    ensures
        spec_decode_framed(spec_encode_framed(b) + rest) == Some((b, rest)),
{
    lemma_min_be_bytes_bounded_len(b.len());
    lemma_len_round_trip(b.len(), b + rest);
    assert(spec_encode_framed(b) + rest =~= spec_encode_len_large(b.len()) + (b + rest));
    assert((b + rest).take(b.len() as int) =~= b);
    assert((b + rest).skip(b.len() as int) =~= rest);
}

/// Round-trip: a unicode scalar decodes from its own encoding.
pub proof fn lemma_char_round_trip(c: char, rest: Seq<u8>)
    ensures
        spec_decode_char(spec_encode_char(c) + rest) == Some((c, rest)),
{
    let eb = encode_utf8(seq![c]);
    lemma_encode_utf8_singleton(c);
    vstd::utf8::char_is_scalar(c);
    vstd::utf8::encode_utf8_valid_utf8(seq![c]);
    vstd::utf8::encode_utf8_decode_utf8(seq![c]);
    let s = spec_encode_char(c) + rest;
    let w = eb.len() as int;
    assert(s[0] == w as u8);
    assert(s.subrange(1, 1 + w) =~= eb);
    assert(decode_utf8(eb) == seq![c]);
    assert(decode_utf8(eb)[0] == c);
    assert(s.skip(1 + w) =~= rest);
}

/// Round-trip: text decodes from its own encoding.
pub proof fn lemma_str_round_trip(cs: Seq<char>, rest: Seq<u8>)
    requires
        encode_utf8(cs).len() <= usize::MAX,
    ensures
        spec_decode_str(spec_encode_str(cs) + rest) == Some((cs, rest)),
{
    lemma_framed_round_trip(encode_utf8(cs), rest);
    assert(spec_encode_str(cs) + rest =~= spec_encode_framed(encode_utf8(cs)) + rest);
    vstd::utf8::encode_utf8_valid_utf8(cs);
    vstd::utf8::encode_utf8_decode_utf8(cs);
}

} // verus!
