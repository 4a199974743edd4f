//! Byte sinks.
//!
//! [`Write`] is the push interface the encoder emits through.  The
//! in-memory [`BytesWriter`] is implemented and verified here; adapters
//! over generic output streams implement the same trait outside the
//! verified core.

use crate::error::Error;
use vstd::prelude::*;

verus! {

/// A byte sink.  Its model is the sequence of bytes accepted so far.
///
/// Implementations outside this crate adapt generic output streams; an
/// implementation may fail any call with an I/O error, but whenever a
/// call succeeds it must have accepted exactly the bytes handed to it.
pub trait Write {
    /// The bytes accepted by this sink so far.  An adapter implemented
    /// outside the verified core may leave this model abstract.
    open spec fn data(&self) -> Seq<u8> {
        arbitrary()
    }

    /// Whether writes to this sink always succeed.  A stream adapter,
    /// which may meet an I/O fault at any time, leaves this false.
    open spec fn infallible(&self) -> bool {
        false
    }

    /// Writes the entire buffer to the sink.
    fn write_all(&mut self, buf: &[u8]) -> (r: Result<(), Error>)
        ensures
            r is Ok ==> final(self).data() == old(self).data() + buf@,
            r is Err ==> r->Err_0 is IoError,
            old(self).infallible() ==> r is Ok,
            final(self).infallible() == old(self).infallible();

    /// Flushes buffered contents toward their destination, accepting no
    /// new bytes.
    fn flush(&mut self) -> (r: Result<(), Error>)
        ensures
            r is Ok ==> final(self).data() == old(self).data(),
            r is Err ==> r->Err_0 is IoError,
            old(self).infallible() ==> r is Ok,
            final(self).infallible() == old(self).infallible();
}

/// A sink that collects everything written into an owned byte buffer.
/// Writes to it never fail.
#[derive(Debug, Clone, PartialEq, Eq, Hash)]
pub struct BytesWriter {
    /// The byte buffer.
    bytes: Vec<u8>,
}

impl View for BytesWriter {
    type V = Seq<u8>;

    closed spec fn view(&self) -> Seq<u8> {
        self.bytes@
    }
}

impl BytesWriter {
    /// Constructs a new writer with an empty byte buffer.
    pub fn new() -> (r: Self)
        ensures
            r@.len() == 0,
    {
        BytesWriter { bytes: Vec::new() }
    }

    /// Returns the full buffer as a slice.
    pub fn as_slice(&self) -> (r: &[u8])
        ensures
            r@ == self@,
    {
        self.bytes.as_slice()
    }

    /// Returns the full buffer as a mutable slice.
    pub fn as_slice_mut(&mut self) -> (r: &mut [u8])
        ensures
            r@ == old(self)@,
            final(self)@ == final(r)@,
    {
        self.bytes.as_mut_slice()
    }

    /// Unwraps and returns the full inner buffer.
    pub fn into_inner(self) -> (r: Vec<u8>)
        ensures
            r@ == self@,
    {
        self.bytes
    }
}

impl Write for BytesWriter {
    open spec fn data(&self) -> Seq<u8> {
        self@
    }

    /// Writing into an owned buffer cannot fail.
    open spec fn infallible(&self) -> bool {
        true
    }

    /// Appends the whole buffer; never fails.
    fn write_all(&mut self, buf: &[u8]) -> (r: Result<(), Error>)
        ensures
            r is Ok,
    {
        self.bytes.extend_from_slice(buf);
        Ok(())
    }

    /// Does nothing; the buffer is its own destination.
    fn flush(&mut self) -> (r: Result<(), Error>)
        ensures
            r is Ok,
    {
        Ok(())
    }
}

} // verus!
