//! Encoding implementation.
//!
//! [`Encoder`] consumes one value shape at a time and emits its
//! canonical byte encoding through the [`Write`] sink it owns.  The
//! scoped encoder types open compound scopes: each `new` writes exactly
//! the framing bytes its shape requires, after which the elements are
//! encoded through the main encoder again.

use crate::error::Error;
use crate::num::{spec_u128_be, spec_u16_be, spec_u32_be, spec_u64_be, u128_be_vec, u16_be_vec,
    u32_be_vec, u64_be_vec};
use crate::util::{encode_len_large, encode_len_small, spec_encode_len_large};
use crate::wire::{lemma_encode_utf8_singleton, spec_encode_bool, spec_encode_char,
    spec_encode_framed, spec_encode_str};
use crate::write::Write;
use vstd::prelude::*;
use vstd::utf8::encode_utf8;

verus! {

/// The UTF-8 encoding of a single character, as executable code.
pub fn encode_utf8_char(c: char) -> (r: Vec<u8>)
    ensures
        r@ =~= encode_utf8(seq![c]),
        1 <= r@.len() <= 4,
{
    proof {
        lemma_encode_utf8_singleton(c);
        vstd::utf8::char_is_scalar(c);
    }
    let u = c as u32;
    let mut r: Vec<u8> = Vec::new();
    if u <= 0x7F {
        r.push((u & 0x7F) as u8);
    } else if u <= 0x7FF {
        r.push(0xC0 | ((u >> 6) & 0x1F) as u8);
        r.push(0x80 | (u & 0x3F) as u8);
    } else if u <= 0xFFFF {
        r.push(0xE0 | ((u >> 12) & 0x0F) as u8);
        r.push(0x80 | ((u >> 6) & 0x3F) as u8);
        r.push(0x80 | (u & 0x3F) as u8);
    } else {
        r.push(0xF0 | ((u >> 18) & 0x7) as u8);
        r.push(0x80 | ((u >> 12) & 0x3F) as u8);
        r.push(0x80 | ((u >> 6) & 0x3F) as u8);
        r.push(0x80 | (u & 0x3F) as u8);
    }
    r
}

/// The binary encoder.
#[derive(Debug)]
pub struct Encoder<W: Write> {
    /// The sink the encoding is emitted through.
    writer: W,
}

impl<W: Write> Encoder<W> {
    /// The bytes this encoder's sink has accepted so far.
    pub closed spec fn data(&self) -> Seq<u8> {
        self.writer.data()
    }

    /// Whether the underlying sink is infallible (see
    /// [`Write::infallible`]): one whose writes always succeed.
    pub closed spec fn sink_infallible(&self) -> bool {
        self.writer.infallible()
    }

    /// Constructs a new binary encoder over the given sink.
    pub fn new(writer: W) -> (r: Self)
        ensures
            r.data() == writer.data(),
            r.sink_infallible() == writer.infallible(),
    {
        Encoder { writer }
    }

    /// Returns a mutable reference to the underlying writer.
    pub fn writer(&mut self) -> (r: &mut W)
        ensures
            (*r).data() == old(self).data(),
            (*r).infallible() == old(self).sink_infallible(),
            final(self).data() == final(r).data(),
            final(self).sink_infallible() == final(r).infallible(),
    {
        &mut self.writer
    }

    /// Unwraps and returns the underlying writer.
    pub fn into_writer(self) -> (r: W)
        ensures
            r.data() == self.data(),
            r.infallible() == self.sink_infallible(),
    {
        self.writer
    }

    /// The encoding is not human readable.
    pub fn is_human_readable(&self) -> (r: bool)
        ensures
            !r,
    {
        false
    }

    /// Emits one raw byte.
    fn write_byte(&mut self, b: u8) -> (r: Result<(), Error>)
        ensures
            r is Ok ==> final(self).data() == old(self).data() + seq![b],
            r is Err ==> r->Err_0 is IoError,
            old(self).sink_infallible() ==> r is Ok,
            final(self).sink_infallible() == old(self).sink_infallible(),
    {
        let mut buf: Vec<u8> = Vec::new();
        buf.push(b);
        self.writer.write_all(buf.as_slice())
    }

    /// Emits a whole buffer.
    fn write_buf(&mut self, buf: &Vec<u8>) -> (r: Result<(), Error>)
        ensures
            r is Ok ==> final(self).data() == old(self).data() + buf@,
            r is Err ==> r->Err_0 is IoError,
            old(self).sink_infallible() ==> r is Ok,
            final(self).sink_infallible() == old(self).sink_infallible(),
    {
        self.writer.write_all(buf.as_slice())
    }

    /// Encodes a boolean as one byte, `0` or `1`.
    pub fn encode_bool(&mut self, v: bool) -> (r: Result<(), Error>)
        ensures
            r is Ok ==> final(self).data() == old(self).data() + spec_encode_bool(v),
            r is Err ==> r->Err_0 is IoError,
            old(self).sink_infallible() ==> r is Ok,
            final(self).sink_infallible() == old(self).sink_infallible(),
    {
        self.write_byte(if v { 1 } else { 0 })
    }

    /// Encodes an 8-bit unsigned integer as one byte.
    pub fn encode_u8(&mut self, v: u8) -> (r: Result<(), Error>)
        ensures
            r is Ok ==> final(self).data() == old(self).data() + seq![v],
            r is Err ==> r->Err_0 is IoError,
            old(self).sink_infallible() ==> r is Ok,
            final(self).sink_infallible() == old(self).sink_infallible(),
    {
        self.write_byte(v)
    }

    /// Encodes a 16-bit unsigned integer in big-endian order.
    pub fn encode_u16(&mut self, v: u16) -> (r: Result<(), Error>)
        ensures
            r is Ok ==> final(self).data() == old(self).data() + spec_u16_be(v),
            r is Err ==> r->Err_0 is IoError,
            old(self).sink_infallible() ==> r is Ok,
            final(self).sink_infallible() == old(self).sink_infallible(),
    {
        let buf = u16_be_vec(v);
        self.write_buf(&buf)
    }

    /// Encodes a 32-bit unsigned integer in big-endian order.
    pub fn encode_u32(&mut self, v: u32) -> (r: Result<(), Error>)
        ensures
            r is Ok ==> final(self).data() == old(self).data() + spec_u32_be(v),
            r is Err ==> r->Err_0 is IoError,
            old(self).sink_infallible() ==> r is Ok,
            final(self).sink_infallible() == old(self).sink_infallible(),
    {
        let buf = u32_be_vec(v);
        self.write_buf(&buf)
    }

    /// Encodes a 64-bit unsigned integer in big-endian order.
    pub fn encode_u64(&mut self, v: u64) -> (r: Result<(), Error>)
        ensures
            r is Ok ==> final(self).data() == old(self).data() + spec_u64_be(v),
            r is Err ==> r->Err_0 is IoError,
            old(self).sink_infallible() ==> r is Ok,
            final(self).sink_infallible() == old(self).sink_infallible(),
    {
        let buf = u64_be_vec(v);
        self.write_buf(&buf)
    }

    /// Encodes a 128-bit unsigned integer in big-endian order.
    pub fn encode_u128(&mut self, v: u128) -> (r: Result<(), Error>)
        ensures
            r is Ok ==> final(self).data() == old(self).data() + spec_u128_be(v),
            r is Err ==> r->Err_0 is IoError,
            old(self).sink_infallible() ==> r is Ok,
            final(self).sink_infallible() == old(self).sink_infallible(),
    {
        let buf = u128_be_vec(v);
        self.write_buf(&buf)
    }

    /// Encodes an 8-bit signed integer as its two's complement byte.
    pub fn encode_i8(&mut self, v: i8) -> (r: Result<(), Error>)
        ensures
            r is Ok ==> final(self).data() == old(self).data() + seq![v as u8],
            r is Err ==> r->Err_0 is IoError,
            old(self).sink_infallible() ==> r is Ok,
            final(self).sink_infallible() == old(self).sink_infallible(),
    {
        self.write_byte(#[verifier::truncate] (v as u8))
    }

    /// Encodes a 16-bit signed integer as big-endian two's complement.
    pub fn encode_i16(&mut self, v: i16) -> (r: Result<(), Error>)
        ensures
            r is Ok ==> final(self).data() == old(self).data() + spec_u16_be(v as u16),
            r is Err ==> r->Err_0 is IoError,
            old(self).sink_infallible() ==> r is Ok,
            final(self).sink_infallible() == old(self).sink_infallible(),
    {
        self.encode_u16(#[verifier::truncate] (v as u16))
    }

    /// Encodes a 32-bit signed integer as big-endian two's complement.
    pub fn encode_i32(&mut self, v: i32) -> (r: Result<(), Error>)
        ensures
            r is Ok ==> final(self).data() == old(self).data() + spec_u32_be(v as u32),
            r is Err ==> r->Err_0 is IoError,
            old(self).sink_infallible() ==> r is Ok,
            final(self).sink_infallible() == old(self).sink_infallible(),
    {
        self.encode_u32(#[verifier::truncate] (v as u32))
    }

    /// Encodes a 64-bit signed integer as big-endian two's complement.
    pub fn encode_i64(&mut self, v: i64) -> (r: Result<(), Error>)
        ensures
            r is Ok ==> final(self).data() == old(self).data() + spec_u64_be(v as u64),
            r is Err ==> r->Err_0 is IoError,
            old(self).sink_infallible() ==> r is Ok,
            final(self).sink_infallible() == old(self).sink_infallible(),
    {
        self.encode_u64(#[verifier::truncate] (v as u64))
    }

    /// Encodes a 128-bit signed integer as big-endian two's complement.
    pub fn encode_i128(&mut self, v: i128) -> (r: Result<(), Error>)
        ensures
            r is Ok ==> final(self).data() == old(self).data() + spec_u128_be(v as u128),
            r is Err ==> r->Err_0 is IoError,
            old(self).sink_infallible() ==> r is Ok,
            final(self).sink_infallible() == old(self).sink_infallible(),
    {
        self.encode_u128(#[verifier::truncate] (v as u128))
    }

    /// Encodes a unicode scalar: one small-length byte holding the
    /// UTF-8 width, then the UTF-8 bytes.
    pub fn encode_char(&mut self, v: char) -> (r: Result<(), Error>)
        ensures
            r is Ok ==> final(self).data() == old(self).data() + spec_encode_char(v),
            r is Err ==> r->Err_0 is IoError,
            old(self).sink_infallible() ==> r is Ok,
            final(self).sink_infallible() == old(self).sink_infallible(),
    {
        let eb = encode_utf8_char(v);
        let mut buf: Vec<u8> = Vec::new();
        buf.push(encode_len_small(eb.len()));
        buf.extend_from_slice(eb.as_slice());
        proof {
            assert(buf@ =~= spec_encode_char(v));
        }
        self.write_buf(&buf)
    }

    /// Encodes a byte run with its large-length prefix.
    pub fn encode_bytes(&mut self, v: &[u8]) -> (r: Result<(), Error>)
        ensures
            r is Ok ==> final(self).data() == old(self).data() + spec_encode_framed(v@),
            r is Err ==> r->Err_0 is IoError,
            old(self).sink_infallible() ==> r is Ok,
            final(self).sink_infallible() == old(self).sink_infallible(),
    {
        let mut buf = encode_len_large(v.len());
        buf.extend_from_slice(v);
        proof {
            assert(buf@ =~= spec_encode_framed(v@));
        }
        self.write_buf(&buf)
    }

    /// Encodes text as its UTF-8 bytes with their large-length prefix.
    pub fn encode_str(&mut self, v: &str) -> (r: Result<(), Error>)
        ensures
            r is Ok ==> final(self).data() == old(self).data() + spec_encode_str(v@),
            r is Err ==> r->Err_0 is IoError,
            old(self).sink_infallible() ==> r is Ok,
            final(self).sink_infallible() == old(self).sink_infallible(),
    {
        self.encode_bytes(v.as_bytes())
    }

    /// Encodes an absent optional as the single byte `0`.
    pub fn encode_none(&mut self) -> (r: Result<(), Error>)
        ensures
            r is Ok ==> final(self).data() == old(self).data() + seq![0u8],
            r is Err ==> r->Err_0 is IoError,
            old(self).sink_infallible() ==> r is Ok,
            final(self).sink_infallible() == old(self).sink_infallible(),
    {
        self.write_byte(0)
    }

    /// Encodes the presence marker of a present optional: the single
    /// byte `1`.  The payload is encoded right after it by the caller.
    pub fn encode_some_marker(&mut self) -> (r: Result<(), Error>)
        ensures
            r is Ok ==> final(self).data() == old(self).data() + seq![1u8],
            r is Err ==> r->Err_0 is IoError,
            old(self).sink_infallible() ==> r is Ok,
            final(self).sink_infallible() == old(self).sink_infallible(),
    {
        self.write_byte(1)
    }

    /// Encodes a unit value: no bytes at all.
    pub fn encode_unit(&mut self) -> (r: Result<(), Error>)
        ensures
            r is Ok,
            final(self).data() == old(self).data(),
            final(self).sink_infallible() == old(self).sink_infallible(),
    {
        Ok(())
    }

    /// Encodes a tagged-union variant tag as one byte holding the
    /// variant's declared index.  An index that does not fit one byte
    /// is rejected, naming the union, before anything is written.
    pub fn encode_variant_tag(&mut self, name: &'static str, variant_index: u32) -> (r: Result<
        (),
        Error,
    >)
        ensures
            r is Ok ==> variant_index < 256 && final(self).data() == old(self).data() + seq![
                variant_index as u8,
            ],
            r matches Err(e) ==> (e is TooManyVariants || e is IoError),
            variant_index >= 256 ==> (r matches Err(e) && e matches Error::TooManyVariants(n)
                && n@ == name@ && final(self).data() == old(self).data()),
            variant_index < 256 && r is Err ==> r->Err_0 is IoError,
            old(self).sink_infallible() && variant_index < 256 ==> r is Ok,
            final(self).sink_infallible() == old(self).sink_infallible(),
    {
        if variant_index < 256 {
            self.write_byte(#[verifier::truncate] (variant_index as u8))
        } else {
            Err(Error::TooManyVariants(name))
        }
    }

    /// Opens a sequence scope.  A sequence of unknown length is
    /// rejected before any bytes are written.
    pub fn begin_seq(&mut self, len: Option<usize>) -> (r: Result<SeqEncoder, Error>)
        ensures
            r is Ok ==> len is Some && final(self).data() == old(self).data()
                + spec_encode_len_large(len->0 as nat),
            r matches Err(e) ==> (e is UnknownSeqLengthNotAllowed || e is IoError),
            len is None ==> (r matches Err(e) && e is UnknownSeqLengthNotAllowed
                && final(self).data() == old(self).data()),
            len is Some && r is Err ==> r->Err_0 is IoError,
            old(self).sink_infallible() && len is Some ==> r is Ok,
            final(self).sink_infallible() == old(self).sink_infallible(),
    {
        match len {
            Some(len) => SeqEncoder::new(self, len),
            None => Err(Error::UnknownSeqLengthNotAllowed),
        }
    }

    /// Opens a map scope.  A map of unknown length is rejected before
    /// any bytes are written.
    pub fn begin_map(&mut self, len: Option<usize>) -> (r: Result<MapEncoder, Error>)
        ensures
            r is Ok ==> len is Some && final(self).data() == old(self).data()
                + spec_encode_len_large(len->0 as nat),
            r matches Err(e) ==> (e is UnknownMapLengthNotAllowed || e is IoError),
            len is None ==> (r matches Err(e) && e is UnknownMapLengthNotAllowed
                && final(self).data() == old(self).data()),
            len is Some && r is Err ==> r->Err_0 is IoError,
            old(self).sink_infallible() && len is Some ==> r is Ok,
            final(self).sink_infallible() == old(self).sink_infallible(),
    {
        match len {
            Some(len) => MapEncoder::new(self, len),
            None => Err(Error::UnknownMapLengthNotAllowed),
        }
    }
}

/// Opens a sequence encoding: its `new` writes the large-length prefix,
/// after which each element is encoded through the main encoder.
pub struct SeqEncoder;

impl SeqEncoder {
    /// Writes the length prefix that opens a sequence of `len`
    /// elements.
    pub fn new<W: Write>(encoder: &mut Encoder<W>, len: usize) -> (r: Result<SeqEncoder, Error>)
        ensures
            r is Ok ==> final(encoder).data() == old(encoder).data() + spec_encode_len_large(
                len as nat,
            ),
            r matches Err(e) ==> e is IoError,
            old(encoder).sink_infallible() ==> r is Ok,
            final(encoder).sink_infallible() == old(encoder).sink_infallible(),
    {
        let buf = encode_len_large(len);
        match encoder.write_buf(&buf) {
            Ok(u) => Ok(SeqEncoder),
            Err(e) => Err(e),
        }
    }
}

/// Opens a map encoding: its `new` writes the large-length prefix for
/// the number of entries, after which keys and values alternate through
/// the main encoder.
pub struct MapEncoder;

impl MapEncoder {
    /// Writes the length prefix that opens a map of `len` entries.
    pub fn new<W: Write>(encoder: &mut Encoder<W>, len: usize) -> (r: Result<MapEncoder, Error>)
        ensures
            r is Ok ==> final(encoder).data() == old(encoder).data() + spec_encode_len_large(
                len as nat,
            ),
            r matches Err(e) ==> e is IoError,
            old(encoder).sink_infallible() ==> r is Ok,
            final(encoder).sink_infallible() == old(encoder).sink_infallible(),
    {
        let buf = encode_len_large(len);
        match encoder.write_buf(&buf) {
            Ok(u) => Ok(MapEncoder),
            Err(e) => Err(e),
        }
    }
}

/// Opens a tuple encoding, which has no framing: the statically known
/// arity is never written.
pub struct TupleEncoder;

impl TupleEncoder {
    /// Opens a tuple scope; writes nothing.
    pub fn new<W: Write>(encoder: &mut Encoder<W>) -> (r: TupleEncoder)
        ensures
            final(encoder).data() == old(encoder).data(),
            final(encoder).sink_infallible() == old(encoder).sink_infallible(),
    {
        TupleEncoder
    }
}

/// Opens a tuple-struct encoding; identical on the wire to a tuple.
pub struct TupleStructEncoder;

impl TupleStructEncoder {
    /// Opens a tuple-struct scope; writes nothing.
    pub fn new<W: Write>(encoder: &mut Encoder<W>) -> (r: TupleStructEncoder)
        ensures
            final(encoder).data() == old(encoder).data(),
            final(encoder).sink_infallible() == old(encoder).sink_infallible(),
    {
        TupleStructEncoder
    }
}

/// Opens a record encoding: fields are concatenated in declaration
/// order and field names are never written.
pub struct StructEncoder;

impl StructEncoder {
    /// Opens a record scope; writes nothing.
    pub fn new<W: Write>(encoder: &mut Encoder<W>) -> (r: StructEncoder)
        ensures
            final(encoder).data() == old(encoder).data(),
            final(encoder).sink_infallible() == old(encoder).sink_infallible(),
    {
        StructEncoder
    }
}

/// Opens a tuple-variant encoding: its `new` writes the one-byte
/// variant tag, after which the payload elements follow untagged.
pub struct TupleVariantEncoder;

impl TupleVariantEncoder {
    /// Writes the variant tag that opens a tuple variant, rejecting an
    /// index that does not fit one byte.
    pub fn new<W: Write>(
        encoder: &mut Encoder<W>,
        name: &'static str,
        variant_index: u32,
    ) -> (r: Result<TupleVariantEncoder, Error>)
        ensures
            r is Ok ==> variant_index < 256 && final(encoder).data() == old(encoder).data() + seq![
                variant_index as u8,
            ],
            r matches Err(e) ==> (e is TooManyVariants || e is IoError),
            variant_index >= 256 ==> (r matches Err(e) && e matches Error::TooManyVariants(n)
                && n@ == name@ && final(encoder).data() == old(encoder).data()),
            variant_index < 256 && r is Err ==> r->Err_0 is IoError,
            old(encoder).sink_infallible() && variant_index < 256 ==> r is Ok,
            final(encoder).sink_infallible() == old(encoder).sink_infallible(),
    {
        match encoder.encode_variant_tag(name, variant_index) {
            Ok(u) => Ok(TupleVariantEncoder),
            Err(e) => Err(e),
        }
    }
}

/// Opens a record-variant encoding: its `new` writes the one-byte
/// variant tag, after which the fields follow as in a record.
pub struct StructVariantEncoder;

impl StructVariantEncoder {
    /// Writes the variant tag that opens a record variant, rejecting an
    /// index that does not fit one byte.
    pub fn new<W: Write>(
        encoder: &mut Encoder<W>,
        name: &'static str,
        variant_index: u32,
    ) -> (r: Result<StructVariantEncoder, Error>)
        ensures
            r is Ok ==> variant_index < 256 && final(encoder).data() == old(encoder).data() + seq![
                variant_index as u8,
            ],
            r matches Err(e) ==> (e is TooManyVariants || e is IoError),
            variant_index >= 256 ==> (r matches Err(e) && e matches Error::TooManyVariants(n)
                && n@ == name@ && final(encoder).data() == old(encoder).data()),
            variant_index < 256 && r is Err ==> r->Err_0 is IoError,
            old(encoder).sink_infallible() && variant_index < 256 ==> r is Ok,
            final(encoder).sink_infallible() == old(encoder).sink_infallible(),
    {
        match encoder.encode_variant_tag(name, variant_index) {
            Ok(u) => Ok(StructVariantEncoder),
            Err(e) => Err(e),
        }
    }
}

} // verus!
