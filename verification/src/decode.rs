//! Decoding implementation.
//!
//! [`Decoder`] is the mirror of the encoder: driven by the target shape
//! the caller supplies, it pulls exactly the bytes that shape's
//! encoding occupies from the [`Read`] source it owns and validates
//! them.  The scoped decoder types bound how many elements a compound
//! decode will visit.

use crate::error::{Error, ValueType};
use crate::num::{spec_u128_from_be, spec_u16_from_be, spec_u32_from_be, spec_u64_from_be,
    u128_from_be_slice, u16_from_be_slice, u32_from_be_slice, u64_from_be_slice};
use crate::read::{BytesReader, Read};
use crate::util::{be_fold, decode_len_small, lemma_be_fold_take_le};
use crate::wire::{spec_decode_bool, spec_decode_char, spec_decode_framed, spec_decode_len,
    spec_decode_option_tag, spec_decode_str, spec_decode_variant_tag};
use vstd::prelude::*;
use vstd::string::StrSliceExecFns;
use vstd::utf8::{decode_utf8, valid_utf8};

verus! {

/// Relies on std::str::from_utf8: it returns `Ok` exactly when the
/// bytes are valid UTF-8, and the resulting text is those bytes read
/// back as characters.
#[verifier::external_body]
fn bytes_to_str(v: &[u8]) -> (r: Result<&str, Error>)
    ensures
        r matches Ok(s) ==> valid_utf8(v@) && s@ == decode_utf8(v@),
        r matches Err(e) ==> !valid_utf8(v@) && e is Utf8Error,
{
    match std::str::from_utf8(v) {
        Ok(s) => Ok(s),
        Err(_) => Err(Error::Utf8Error),
    }
}

/// Valid, non-empty UTF-8 holds at least one character.
proof fn lemma_decode_utf8_nonempty(b: Seq<u8>)
    requires
        valid_utf8(b),
        b.len() > 0,
    ensures
        decode_utf8(b).len() >= 1,
{
}

/// The binary decoder.
#[derive(Debug)]
pub struct Decoder<R: Read> {
    /// The source the encoding is pulled from.
    reader: R,
}

impl<R: Read> Decoder<R> {
    /// The bytes this decoder's source has not yet consumed.
    pub closed spec fn data(&self) -> Seq<u8> {
        self.reader.data()
    }

    /// Whether the underlying source is exact (see [`Read::exact`]):
    /// one whose reads fail only for want of bytes, never for an I/O
    /// fault.
    pub closed spec fn src_exact(&self) -> bool {
        self.reader.exact()
    }

    /// Constructs a new binary decoder over the given source.
    pub fn new(reader: R) -> (r: Self)
        ensures
            r.data() == reader.data(),
            r.src_exact() == reader.exact(),
    {
        Decoder { reader }
    }

    /// Returns a mutable reference to the underlying reader.
    pub fn reader(&mut self) -> (r: &mut R)
        ensures
            (*r).data() == old(self).data(),
            (*r).exact() == old(self).src_exact(),
            final(self).data() == final(r).data(),
            final(self).src_exact() == final(r).exact(),
    {
        &mut self.reader
    }

    /// Unwraps and returns the underlying reader.
    pub fn into_reader(self) -> (r: R)
        ensures
            r.data() == self.data(),
            r.exact() == self.src_exact(),
    {
        self.reader
    }

    /// The encoding is not human readable.
    pub fn is_human_readable(&self) -> (r: bool)
        ensures
            !r,
    {
        false
    }

    /// This format stores no shape metadata, so a request to discover
    /// the value's own shape from the bytes always fails.
    pub fn decode_any(&mut self) -> (r: Result<(), Error>)
        ensures
            r matches Err(e) && e is CannotDeserializeAny,
            final(self).data() == old(self).data(),
            final(self).src_exact() == old(self).src_exact(),
    {
        Err(Error::CannotDeserializeAny)
    }

    /// This format stores no field names, so a request for an
    /// identifier always fails.
    pub fn decode_identifier(&mut self) -> (r: Result<(), Error>)
        ensures
            r matches Err(e) && e is CannotDeserializeIdentifier,
            final(self).data() == old(self).data(),
            final(self).src_exact() == old(self).src_exact(),
    {
        Err(Error::CannotDeserializeIdentifier)
    }

    /// Skipping a value would require knowing its width without its
    /// shape, which this format cannot do: always fails.
    pub fn decode_ignored_any(&mut self) -> (r: Result<(), Error>)
        ensures
            r matches Err(e) && e is CannotDeserializeAny,
            final(self).data() == old(self).data(),
            final(self).src_exact() == old(self).src_exact(),
    {
        Err(Error::CannotDeserializeAny)
    }

    /// Decodes a boolean from one byte: `0` or `1`; any other byte is
    /// an invalid-bytes error naming the boolean type.
    pub fn decode_bool(&mut self) -> (r: Result<bool, Error>)
        ensures
            r matches Ok(v) ==> spec_decode_bool(old(self).data()) == Some((
                v,
                final(self).data(),
            )),
            r matches Err(e) ==> (e is IoError || (spec_decode_bool(old(self).data()) is None && (
            e is UnexpectedEof || (e matches Error::InvalidBytes { ty, bytes } && ty is Bool
                && old(self).data().len() >= 1 && bytes@ == seq![old(self).data()[0]])))),
            old(self).src_exact() && spec_decode_bool(old(self).data()) is Some ==> r is Ok,
            old(self).src_exact() && old(self).data().len() >= 1 && spec_decode_bool(
                old(self).data(),
            ) is None ==> (r matches Err(e) && e matches Error::InvalidBytes { ty, bytes }
                && ty is Bool && bytes@ == seq![old(self).data()[0]]
                && final(self).data() == old(self).data().skip(1)),
            final(self).src_exact() == old(self).src_exact(),
    {
        let b = match self.reader.read_byte() {
            Ok(b) => b,
            Err(e) => { return Err(e) },
        };
        if b == 0 {
            Ok(false)
        } else if b == 1 {
            Ok(true)
        } else {
            let mut bytes: Vec<u8> = Vec::new();
            bytes.push(b);
            Err(Error::InvalidBytes { ty: ValueType::Bool, bytes })
        }
    }

    /// Decodes an optional's presence marker from one byte: `false`
    /// for absent, `true` for present; any other byte is an
    /// invalid-bytes error naming the optional type.  When present,
    /// the payload follows and is decoded by the caller.
    pub fn decode_option_tag(&mut self) -> (r: Result<bool, Error>)
        ensures
            r matches Ok(v) ==> spec_decode_option_tag(old(self).data()) == Some((
                v,
                final(self).data(),
            )),
            r matches Err(e) ==> (e is IoError || (spec_decode_option_tag(old(self).data())
                is None && (e is UnexpectedEof || (e matches Error::InvalidBytes { ty, bytes }
                && ty is Option && old(self).data().len() >= 1 && bytes@ == seq![
                old(self).data()[0],
            ])))),
            old(self).src_exact() && spec_decode_option_tag(old(self).data()) is Some ==> r is Ok,
            old(self).src_exact() && old(self).data().len() >= 1 && spec_decode_option_tag(
                old(self).data(),
            ) is None ==> (r matches Err(e) && e matches Error::InvalidBytes { ty, bytes }
                && ty is Option && bytes@ == seq![old(self).data()[0]]
                && final(self).data() == old(self).data().skip(1)),
            final(self).src_exact() == old(self).src_exact(),
    {
        let b = match self.reader.read_byte() {
            Ok(b) => b,
            Err(e) => { return Err(e) },
        };
        if b == 0 {
            Ok(false)
        } else if b == 1 {
            Ok(true)
        } else {
            let mut bytes: Vec<u8> = Vec::new();
            bytes.push(b);
            Err(Error::InvalidBytes { ty: ValueType::Option, bytes })
        }
    }

    /// Decodes a unit value, which occupies no bytes.
    pub fn decode_unit(&mut self) -> (r: Result<(), Error>)
        ensures
            r is Ok,
            final(self).data() == old(self).data(),
            final(self).src_exact() == old(self).src_exact(),
    {
        Ok(())
    }

    /// Decodes an 8-bit unsigned integer from one byte.
    pub fn decode_u8(&mut self) -> (r: Result<u8, Error>)
        ensures
            r matches Ok(v) ==> old(self).data().len() >= 1 && v == old(self).data()[0] && final(self).data()
                == old(self).data().skip(1),
            r matches Err(e) ==> ((e is UnexpectedEof && old(self).data().len() == 0)
                || e is IoError),
            old(self).src_exact() && old(self).data().len() >= 1 ==> r is Ok,
            final(self).src_exact() == old(self).src_exact(),
    {
        self.reader.read_byte()
    }

    /// Decodes a 16-bit unsigned integer from two big-endian bytes.
    pub fn decode_u16(&mut self) -> (r: Result<u16, Error>)
        ensures
            r matches Ok(v) ==> old(self).data().len() >= 2 && v == spec_u16_from_be(
                old(self).data().take(2),
            ) && final(self).data() == old(self).data().skip(2),
            r matches Err(e) ==> ((e is UnexpectedEof && old(self).data().len() < 2)
                || e is IoError),
            old(self).src_exact() && old(self).data().len() >= 2 ==> r is Ok,
            final(self).src_exact() == old(self).src_exact(),
    {
        let b = match self.reader.read_n_vec(2) {
            Ok(b) => b,
            Err(e) => { return Err(e) },
        };
        Ok(u16_from_be_slice(b.as_slice()))
    }

    /// Decodes a 32-bit unsigned integer from four big-endian bytes.
    pub fn decode_u32(&mut self) -> (r: Result<u32, Error>)
        ensures
            r matches Ok(v) ==> old(self).data().len() >= 4 && v == spec_u32_from_be(
                old(self).data().take(4),
            ) && final(self).data() == old(self).data().skip(4),
            r matches Err(e) ==> ((e is UnexpectedEof && old(self).data().len() < 4)
                || e is IoError),
            old(self).src_exact() && old(self).data().len() >= 4 ==> r is Ok,
            final(self).src_exact() == old(self).src_exact(),
    {
        let b = match self.reader.read_n_vec(4) {
            Ok(b) => b,
            Err(e) => { return Err(e) },
        };
        Ok(u32_from_be_slice(b.as_slice()))
    }

    /// Decodes a 64-bit unsigned integer from eight big-endian bytes.
    pub fn decode_u64(&mut self) -> (r: Result<u64, Error>)
        ensures
            r matches Ok(v) ==> old(self).data().len() >= 8 && v == spec_u64_from_be(
                old(self).data().take(8),
            ) && final(self).data() == old(self).data().skip(8),
            r matches Err(e) ==> ((e is UnexpectedEof && old(self).data().len() < 8)
                || e is IoError),
            old(self).src_exact() && old(self).data().len() >= 8 ==> r is Ok,
            final(self).src_exact() == old(self).src_exact(),
    {
        let b = match self.reader.read_n_vec(8) {
            Ok(b) => b,
            Err(e) => { return Err(e) },
        };
        Ok(u64_from_be_slice(b.as_slice()))
    }

    /// Decodes a 128-bit unsigned integer from sixteen big-endian
    /// bytes.
    pub fn decode_u128(&mut self) -> (r: Result<u128, Error>)
        ensures
            r matches Ok(v) ==> old(self).data().len() >= 16 && v == spec_u128_from_be(
                old(self).data().take(16),
            ) && final(self).data() == old(self).data().skip(16),
            r matches Err(e) ==> ((e is UnexpectedEof && old(self).data().len() < 16)
                || e is IoError),
            old(self).src_exact() && old(self).data().len() >= 16 ==> r is Ok,
            final(self).src_exact() == old(self).src_exact(),
    {
        let b = match self.reader.read_n_vec(16) {
            Ok(b) => b,
            Err(e) => { return Err(e) },
        };
        Ok(u128_from_be_slice(b.as_slice()))
    }

    /// Decodes an 8-bit signed integer from its two's complement byte.
    pub fn decode_i8(&mut self) -> (r: Result<i8, Error>)
        ensures
            r matches Ok(v) ==> old(self).data().len() >= 1 && v == old(self).data()[0] as i8
                && final(self).data() == old(self).data().skip(1),
            r matches Err(e) ==> ((e is UnexpectedEof && old(self).data().len() == 0)
                || e is IoError),
            old(self).src_exact() && old(self).data().len() >= 1 ==> r is Ok,
            final(self).src_exact() == old(self).src_exact(),
    {
        let b = match self.reader.read_byte() {
            Ok(b) => b,
            Err(e) => { return Err(e) },
        };
        Ok(#[verifier::truncate] (b as i8))
    }

    /// Decodes a 16-bit signed integer from big-endian two's
    /// complement.
    pub fn decode_i16(&mut self) -> (r: Result<i16, Error>)
        ensures
            r matches Ok(v) ==> old(self).data().len() >= 2 && v == spec_u16_from_be(
                old(self).data().take(2),
            ) as i16 && final(self).data() == old(self).data().skip(2),
            r matches Err(e) ==> ((e is UnexpectedEof && old(self).data().len() < 2)
                || e is IoError),
            old(self).src_exact() && old(self).data().len() >= 2 ==> r is Ok,
            final(self).src_exact() == old(self).src_exact(),
    {
        let v = match self.decode_u16() {
            Ok(v) => v,
            Err(e) => { return Err(e) },
        };
        Ok(#[verifier::truncate] (v as i16))
    }

    /// Decodes a 32-bit signed integer from big-endian two's
    /// complement.
    pub fn decode_i32(&mut self) -> (r: Result<i32, Error>)
        ensures
            r matches Ok(v) ==> old(self).data().len() >= 4 && v == spec_u32_from_be(
                old(self).data().take(4),
            ) as i32 && final(self).data() == old(self).data().skip(4),
            r matches Err(e) ==> ((e is UnexpectedEof && old(self).data().len() < 4)
                || e is IoError),
            old(self).src_exact() && old(self).data().len() >= 4 ==> r is Ok,
            final(self).src_exact() == old(self).src_exact(),
    {
        let v = match self.decode_u32() {
            Ok(v) => v,
            Err(e) => { return Err(e) },
        };
        Ok(#[verifier::truncate] (v as i32))
    }

    /// Decodes a 64-bit signed integer from big-endian two's
    /// complement.
    pub fn decode_i64(&mut self) -> (r: Result<i64, Error>)
        ensures
            r matches Ok(v) ==> old(self).data().len() >= 8 && v == spec_u64_from_be(
                old(self).data().take(8),
            ) as i64 && final(self).data() == old(self).data().skip(8),
            r matches Err(e) ==> ((e is UnexpectedEof && old(self).data().len() < 8)
                || e is IoError),
            old(self).src_exact() && old(self).data().len() >= 8 ==> r is Ok,
            final(self).src_exact() == old(self).src_exact(),
    {
        let v = match self.decode_u64() {
            Ok(v) => v,
            Err(e) => { return Err(e) },
        };
        Ok(#[verifier::truncate] (v as i64))
    }

    /// Decodes a 128-bit signed integer from big-endian two's
    /// complement.
    pub fn decode_i128(&mut self) -> (r: Result<i128, Error>)
        ensures
            r matches Ok(v) ==> old(self).data().len() >= 16 && v == spec_u128_from_be(
                old(self).data().take(16),
            ) as i128 && final(self).data() == old(self).data().skip(16),
            r matches Err(e) ==> ((e is UnexpectedEof && old(self).data().len() < 16)
                || e is IoError),
            old(self).src_exact() && old(self).data().len() >= 16 ==> r is Ok,
            final(self).src_exact() == old(self).src_exact(),
    {
        let v = match self.decode_u128() {
            Ok(v) => v,
            Err(e) => { return Err(e) },
        };
        Ok(#[verifier::truncate] (v as i128))
    }

    /// Decodes a unicode scalar: one small-length byte giving the
    /// UTF-8 width (1 to 4), then that many bytes of valid UTF-8, of
    /// which the first decoded scalar is the result; any further
    /// scalars in those bytes are deliberately ignored.
    pub fn decode_char(&mut self) -> (r: Result<char, Error>)
        ensures
            r matches Ok(c) ==> spec_decode_char(old(self).data()) == Some((
                c,
                final(self).data(),
            )),
            r matches Err(e) ==> (e is IoError || (spec_decode_char(old(self).data()) is None && (
            e is UnexpectedEof || e is Utf8Error || (e matches Error::InvalidBytes { ty, bytes }
                && ty is Char && old(self).data().len() >= 1 && bytes@ == seq![
                old(self).data()[0],
            ])))),
            old(self).src_exact() && spec_decode_char(old(self).data()) is Some ==> r is Ok,
            old(self).src_exact() && old(self).data().len() >= 1 && !(1 <= old(self).data()[0]
                <= 4) ==> (r matches Err(e) && e matches Error::InvalidBytes { ty, bytes }
                && ty is Char && bytes@ == seq![old(self).data()[0]]
                && final(self).data() == old(self).data().skip(1)),
            old(self).src_exact() && old(self).data().len() >= 1 && 1 <= old(self).data()[0] <= 4
                && old(self).data().len() >= 1 + old(self).data()[0] && !valid_utf8(
                old(self).data().subrange(1, 1 + old(self).data()[0] as int),
            ) ==> (r matches Err(e) && e is Utf8Error
                && final(self).data() == old(self).data().skip(1 + old(self).data()[0] as int)),
            final(self).src_exact() == old(self).src_exact(),
    {
        let ghost orig = self.data();
        let w = match self.reader.read_byte() {
            Ok(b) => b,
            Err(e) => { return Err(e) },
        };
        let width = decode_len_small(w);
        if width < 1 || width > 4 {
            let mut bytes: Vec<u8> = Vec::new();
            bytes.push(w);
            return Err(Error::InvalidBytes { ty: ValueType::Char, bytes });
        }
        let eb = match self.reader.read_n_vec(width) {
            Ok(v) => v,
            Err(e) => { return Err(e) },
        };
        proof {
            assert(eb@ =~= orig.subrange(1, 1 + w as int));
        }
        proof {
            assert(self.data() =~= orig.skip(1 + w as int));
        }
        let s = match bytes_to_str(eb.as_slice()) {
            Ok(s) => s,
            Err(e) => { return Err(e) },
        };
        proof {
            lemma_decode_utf8_nonempty(eb@);
        }
        let c = s.get_char(0);
        Ok(c)
    }

    /// Reads a dynamically sized byte run: the two-tier length prefix,
    /// then exactly that many bytes, copied into an owned buffer.  A
    /// stated length too large for this machine cannot be present in
    /// full and is reported as a premature end of input.
    pub fn read_bytes_with_large_len(&mut self) -> (r: Result<Vec<u8>, Error>)
        ensures
            r matches Ok(v) ==> spec_decode_framed(old(self).data()) == Some((
                v@,
                final(self).data(),
            )),
            r matches Err(e) ==> (e is IoError || (e is UnexpectedEof && (spec_decode_framed(
                old(self).data(),
            ) is None || (spec_decode_len(old(self).data()) matches Some((l, _))
                && l > usize::MAX)))),
            old(self).src_exact() && spec_decode_framed(old(self).data()) is Some && (
            spec_decode_len(old(self).data()) matches Some((l, _)) && l <= usize::MAX) ==> r is Ok,
            final(self).src_exact() == old(self).src_exact(),
    {
        let len = match self.decode_len() {
            Ok(n) => n,
            Err(e) => { return Err(e) },
        };
        self.reader.read_n_vec(len)
    }

    /// Reads a dynamically sized byte run framed by a one-byte small
    /// length: the count byte, then exactly that many bytes.
    pub fn read_bytes_with_small_len(&mut self) -> (r: Result<Vec<u8>, Error>)
        ensures
            r matches Ok(v) ==> {
                &&& old(self).data().len() >= 1 + old(self).data()[0]
                &&& v@ == old(self).data().subrange(1, 1 + old(self).data()[0] as int)
                &&& final(self).data() == old(self).data().skip(1 + old(self).data()[0] as int)
            },
            r matches Err(e) ==> ((e is UnexpectedEof && (old(self).data().len() == 0 || old(
                self,
            ).data().len() < 1 + old(self).data()[0])) || e is IoError),
            old(self).src_exact() && old(self).data().len() >= 1 && old(self).data().len() >= 1
                + old(self).data()[0] ==> r is Ok,
            final(self).src_exact() == old(self).src_exact(),
    {
        let ghost orig = self.data();
        let k = match self.reader.read_byte() {
            Ok(b) => b,
            Err(e) => { return Err(e) },
        };
        let v = match self.reader.read_n_vec(decode_len_small(k)) {
            Ok(v) => v,
            Err(e) => { return Err(e) },
        };
        proof {
            assert(v@ =~= orig.subrange(1, 1 + k as int));
        }
        Ok(v)
    }

    /// Decodes a two-tier length prefix, as written before every
    /// dynamically sized byte run, sequence, and map.  A stated length
    /// too large for this machine cannot be followed by that many
    /// bytes and is reported as a premature end of input.
    pub fn decode_len(&mut self) -> (r: Result<usize, Error>)
        ensures
            r matches Ok(n) ==> spec_decode_len(old(self).data()) == Some((
                n as nat,
                final(self).data(),
            )),
            r matches Err(e) ==> (e is IoError || (e is UnexpectedEof && (spec_decode_len(
                old(self).data(),
            ) is None || (spec_decode_len(old(self).data()) matches Some((l, _))
                && l > usize::MAX)))),
            old(self).src_exact() && (spec_decode_len(old(self).data()) matches Some((l, _))
                && l <= usize::MAX) ==> r is Ok,
            final(self).src_exact() == old(self).src_exact(),
    {
        let ghost orig = self.data();
        let k = match self.reader.read_byte() {
            Ok(b) => b,
            Err(e) => { return Err(e) },
        };
        let len_bytes = match self.reader.read_n_vec(decode_len_small(k)) {
            Ok(v) => v,
            Err(e) => { return Err(e) },
        };
        proof {
            assert(len_bytes@ =~= orig.subrange(1, 1 + k as int));
        }
        let kl = len_bytes.len();
        let mut len: usize = 0;
        let mut i: usize = 0;
        while i < kl
            invariant
                orig == old(self).data(),
                self.src_exact() == old(self).src_exact(),
                i <= kl == len_bytes@.len(),
                len == be_fold(len_bytes@.take(i as int)),
                kl == k as usize,
                orig.len() >= 1 + kl,
                orig[0] == k,
                len_bytes@ == orig.subrange(1, 1 + kl as int),
            decreases kl - i,
        {
            proof {
                assert(len_bytes@.take(i + 1).drop_last() =~= len_bytes@.take(i as int));
                assert(len_bytes@.take(i + 1).last() == len_bytes@[i as int]);
            }
            let hi = match len.checked_mul(256) {
                Some(h) => h,
                None => {
                    proof {
                        lemma_be_fold_take_le(len_bytes@, i + 1);
                        assert(be_fold(len_bytes@) > usize::MAX);
                        assert(spec_decode_len(orig) == Some((
                            be_fold(len_bytes@),
                            orig.skip(1 + kl as int),
                        )));
                    }
                    return Err(Error::UnexpectedEof)
                },
            };
            let lo = match hi.checked_add(len_bytes[i] as usize) {
                Some(l) => l,
                None => {
                    proof {
                        lemma_be_fold_take_le(len_bytes@, i + 1);
                        assert(be_fold(len_bytes@) > usize::MAX);
                        assert(spec_decode_len(orig) == Some((
                            be_fold(len_bytes@),
                            orig.skip(1 + kl as int),
                        )));
                    }
                    return Err(Error::UnexpectedEof)
                },
            };
            len = lo;
            i = i + 1;
        }
        proof {
            assert(len_bytes@.take(kl as int) =~= len_bytes@);
            assert(spec_decode_len(orig) == Some((be_fold(len_bytes@), orig.skip(1 + k as int))));
        }
        Ok(len)
    }

    /// Decodes owned text: a framed byte run that must be valid UTF-8.
    pub fn decode_string(&mut self) -> (r: Result<String, Error>)
        ensures
            r matches Ok(v) ==> spec_decode_str(old(self).data()) == Some((
                v@,
                final(self).data(),
            )),
            r matches Err(e) ==> (e is IoError || (e is Utf8Error && spec_decode_str(
                old(self).data(),
            ) is None) || (e is UnexpectedEof && (spec_decode_str(old(self).data()) is None || (
            spec_decode_len(old(self).data()) matches Some((l, _)) && l > usize::MAX)))),
            old(self).src_exact() && spec_decode_str(old(self).data()) is Some && (spec_decode_len(
                old(self).data(),
            ) matches Some((l, _)) && l <= usize::MAX) ==> r is Ok,
            old(self).src_exact() && (spec_decode_len(old(self).data()) matches Some((l, _))
                && l <= usize::MAX) && (spec_decode_framed(old(self).data()) matches Some((b, _))
                && !valid_utf8(b)) ==> (r matches Err(e) && e is Utf8Error && final(self).data()
                == (spec_decode_framed(old(self).data())->0).1),
            final(self).src_exact() == old(self).src_exact(),
    {
        let b = match self.read_bytes_with_large_len() {
            Ok(b) => b,
            Err(e) => { return Err(e) },
        };
        let s = match bytes_to_str(b.as_slice()) {
            Ok(s) => s,
            Err(e) => { return Err(e) },
        };
        Ok(s.to_owned())
    }

    /// Decodes a tagged-union variant tag: one byte holding the
    /// variant's declared index.
    pub fn decode_variant_tag(&mut self) -> (r: Result<u8, Error>)
        ensures
            r matches Ok(tag) ==> spec_decode_variant_tag(old(self).data()) == Some((
                tag,
                final(self).data(),
            )),
            r matches Err(e) ==> ((e is UnexpectedEof && spec_decode_variant_tag(
                old(self).data(),
            ) is None) || e is IoError),
            old(self).src_exact() && old(self).data().len() >= 1 ==> r is Ok,
            final(self).src_exact() == old(self).src_exact(),
    {
        self.reader.read_byte()
    }
}

impl<'a> Decoder<BytesReader<'a>> {
    /// Decodes a framed byte run as a borrowed view into the backing
    /// buffer, succeeding exactly when the framing is intact.
    pub fn decode_bytes_borrowed(&mut self) -> (r: Result<&'a [u8], Error>)
        ensures
            r matches Ok(v) ==> spec_decode_framed(old(self).data()) == Some((
                v@,
                final(self).data(),
            )),
            r matches Err(e) ==> e is UnexpectedEof && spec_decode_framed(old(self).data())
                is None,
    {
        let ghost orig = self.data();
        let buffered = self.reader.as_slice().len();
        proof {
            assert(orig.len() == buffered as nat);
        }
        let k = match self.reader.read_byte() {
            Ok(b) => b,
            Err(e) => { return Err(e) },
        };
        let len_bytes = match self.reader.read_bytes(k as usize) {
            Ok(v) => v,
            Err(e) => { return Err(e) },
        };
        proof {
            assert(len_bytes@ =~= orig.subrange(1, 1 + k as int));
        }
        let kl = len_bytes.len();
        let mut len: usize = 0;
        let mut i: usize = 0;
        while i < kl
            invariant
                orig == old(self).data(),
                i <= kl == len_bytes@.len(),
                len == be_fold(len_bytes@.take(i as int)),
                kl == k as usize,
                orig.len() >= 1 + kl,
                orig[0] == k,
                len_bytes@ == orig.subrange(1, 1 + kl as int),
                self.data() == orig.skip(1 + kl as int),
                orig.len() <= usize::MAX,
            decreases kl - i,
        {
            proof {
                assert(len_bytes@.take(i + 1).drop_last() =~= len_bytes@.take(i as int));
                assert(len_bytes@.take(i + 1).last() == len_bytes@[i as int]);
            }
            let hi = match len.checked_mul(256) {
                Some(h) => h,
                None => {
                    proof {
                        lemma_be_fold_take_le(len_bytes@, i + 1);
                        assert(be_fold(len_bytes@) > usize::MAX);
                        assert(spec_decode_len(orig) == Some((
                            be_fold(len_bytes@),
                            orig.skip(1 + kl as int),
                        )));
                        assert(orig.skip(1 + kl as int).len() < be_fold(len_bytes@));
                    }
                    return Err(Error::UnexpectedEof)
                },
            };
            let lo = match hi.checked_add(len_bytes[i] as usize) {
                Some(l) => l,
                None => {
                    proof {
                        lemma_be_fold_take_le(len_bytes@, i + 1);
                        assert(be_fold(len_bytes@) > usize::MAX);
                        assert(spec_decode_len(orig) == Some((
                            be_fold(len_bytes@),
                            orig.skip(1 + kl as int),
                        )));
                        assert(orig.skip(1 + kl as int).len() < be_fold(len_bytes@));
                    }
                    return Err(Error::UnexpectedEof)
                },
            };
            len = lo;
            i = i + 1;
        }
        proof {
            assert(len_bytes@.take(kl as int) =~= len_bytes@);
        }
        let v = match self.reader.read_bytes(len) {
            Ok(v) => v,
            Err(e) => { return Err(e) },
        };
        proof {
            let rest = orig.skip(1 + k as int);
            assert(spec_decode_len(orig) == Some((be_fold(len_bytes@), rest)));
            assert(v@ =~= rest.take(len as int));
            assert(final(self).data() =~= rest.skip(len as int));
        }
        Ok(v)
    }

    /// Decodes text as a borrowed view into the backing buffer,
    /// succeeding exactly when the framing is intact and the framed
    /// bytes are valid UTF-8.
    pub fn decode_str_borrowed(&mut self) -> (r: Result<&'a str, Error>)
        ensures
            r matches Ok(s) ==> spec_decode_str(old(self).data()) == Some((
                s@,
                final(self).data(),
            )),
            r matches Err(e) ==> ((e is UnexpectedEof && spec_decode_framed(old(self).data())
                is None) || (e is Utf8Error && (spec_decode_framed(old(self).data()) matches Some(
                (b, _),
            ) && !valid_utf8(b)) && final(self).data() == (spec_decode_framed(
                old(self).data(),
            )->0).1)),
    {
        let b = match self.decode_bytes_borrowed() {
            Ok(b) => b,
            Err(e) => { return Err(e) },
        };
        let s = match bytes_to_str(b) {
            Ok(s) => s,
            Err(e) => { return Err(e) },
        };
        Ok(s)
    }
}


/// Bounds how many elements a sequence decode will visit: it yields
/// elements while its remaining count is positive, decrementing first,
/// and stops at zero.
#[derive(Debug, Clone, PartialEq, Eq, Hash)]
pub struct SeqDecoder {
    /// The number of elements not yet decoded.
    len: usize,
}

impl SeqDecoder {
    /// The number of elements not yet decoded.
    pub closed spec fn remaining(&self) -> nat {
        self.len as nat
    }

    /// Creates a new sequence decoder expecting `len` elements.
    pub fn new(len: usize) -> (r: Self)
        ensures
            r.remaining() == len,
    {
        SeqDecoder { len }
    }

    /// Reports whether another element should be decoded, counting it
    /// off if so.
    pub fn next_element(&mut self) -> (b: bool)
        ensures
            b == (old(self).remaining() > 0),
            b ==> final(self).remaining() == old(self).remaining() - 1,
            !b ==> final(self).remaining() == 0,
    {
        if self.len > 0 {
            self.len = self.len - 1;
            true
        } else {
            false
        }
    }

    /// The exact number of elements still expected.
    pub fn size_hint(&self) -> (n: usize)
        ensures
            n == self.remaining(),
    {
        self.len
    }
}

/// Bounds how many entries a map decode will visit: the key step
/// counts an entry off; the value step that follows it does not.
#[derive(Debug, Clone, PartialEq, Eq, Hash)]
pub struct MapDecoder {
    /// The number of entries whose key has not yet been decoded.
    len: usize,
}

impl MapDecoder {
    /// The number of entries whose key has not yet been decoded.
    pub closed spec fn remaining(&self) -> nat {
        self.len as nat
    }

    /// Creates a new map decoder expecting `len` entries.
    pub fn new(len: usize) -> (r: Self)
        ensures
            r.remaining() == len,
    {
        MapDecoder { len }
    }

    /// Reports whether another key should be decoded, counting the
    /// entry off if so.  The entry's value is decoded right after its
    /// key without touching the count.
    pub fn next_key(&mut self) -> (b: bool)
        ensures
            b == (old(self).remaining() > 0),
            b ==> final(self).remaining() == old(self).remaining() - 1,
            !b ==> final(self).remaining() == 0,
    {
        if self.len > 0 {
            self.len = self.len - 1;
            true
        } else {
            false
        }
    }

    /// The exact number of entries still expected.
    pub fn size_hint(&self) -> (n: usize)
        ensures
            n == self.remaining(),
    {
        self.len
    }
}

} // verus!
