//! A deterministic, compact binary encoding and decoding engine for
//! structured values.
//!
//! The format frames every dynamically sized byte run with a two-tier
//! length prefix, writes fixed-width integers in big-endian order, and
//! stores no type tags except for optional presence and tagged-union
//! variant indices.

pub mod decode;
pub mod encode;
pub mod error;
pub mod num;
pub mod read;
pub mod util;
pub mod wire;
pub mod write;

pub use decode::{Decoder, MapDecoder, SeqDecoder};
pub use encode::{Encoder, MapEncoder, SeqEncoder, StructEncoder, StructVariantEncoder,
    TupleEncoder, TupleStructEncoder, TupleVariantEncoder};
pub use error::{Error, ValueType};
pub use read::{BytesReader, Read};
pub use util::{decode_len_large, decode_len_small, encode_len_large, encode_len_small};
pub use write::{BytesWriter, Write};
