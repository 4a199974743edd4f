//! Library error types.

use vstd::prelude::*;

verus! {

/// All types of serializable values, used to name the shape a decoder
/// was reading when it met invalid bytes.
#[allow(missing_docs)]
#[derive(Clone, Copy, Debug, PartialEq, Eq, PartialOrd, Ord, Hash, Structural)]
pub enum ValueType {
    Bool,
    I8,
    I16,
    I32,
    I64,
    I128,
    U8,
    U16,
    U32,
    U64,
    U128,
    F32,
    F64,
    Char,
    Str,
    String,
    Bytes,
    ByteBuf,
    Option,
    Unit,
    UnitStruct,
    NewtypeStruct,
    Sequence,
    Tuple,
    TupleStruct,
    Mapping,
    Struct,
    Enum,
}

/// Library-level error.
#[derive(Debug)]
pub enum Error {
    /// Sequences of unknown length are not allowed.
    UnknownSeqLengthNotAllowed,
    /// Maps of unknown length are not allowed.
    UnknownMapLengthNotAllowed,
    /// An enum has more than 256 variants, so its tag does not fit one
    /// byte.  Carries the enum's name.
    TooManyVariants(&'static str),
    /// The target shape asked the decoder to discover structure from the
    /// bytes, which this self-description-free format cannot do.
    CannotDeserializeAny,
    /// The target shape asked the decoder for a field identifier, which
    /// this format never stores.
    CannotDeserializeIdentifier,
    /// A byte reader reached the end of the stream prematurely.
    UnexpectedEof,
    /// An invalid byte sequence was encountered.
    InvalidBytes {
        /// The type of value where the decoder failed.
        ty: ValueType,
        /// The sequence of invalid bytes.
        bytes: Vec<u8>,
    },
    /// An I/O error, carried as the underlying stream reported it.
    IoError(String),
    /// A UTF-8 encode/decode error.
    Utf8Error,
    /// A custom error message from the traversal framework.
    Custom(String),
}

} // verus!
