//! Byte sources.
//!
//! [`Read`] is the pull interface the decoder consumes through.  Its
//! model is the sequence of bytes not yet consumed.  The slice-backed
//! [`BytesReader`] is implemented and verified here; it additionally
//! offers a borrowing path ([`BytesReader::read_bytes`]) that hands out
//! views into the backing buffer.  Adapters over generic input streams
//! implement the same trait outside the verified core; such a source
//! copies on every extraction and cannot produce borrowed views.

use crate::error::Error;
use vstd::prelude::*;

verus! {

/// A byte source.  Its model is the sequence of bytes not yet consumed.
///
/// Short reads always fail, on every path: a successful read handed
/// back exactly the requested prefix of the unread bytes, and a read
/// past the end of the source fails with [`Error::UnexpectedEof`]
/// rather than padding or truncating.  A stream adapter may fail any
/// call with an I/O error besides.
pub trait Read {
    /// The bytes this source has not yet handed out.  An adapter
    /// implemented outside the verified core may leave this model
    /// abstract.
    open spec fn data(&self) -> Seq<u8> {
        arbitrary()
    }

    /// Whether this source fails a read only for want of bytes: an
    /// exact source succeeds whenever enough unread bytes remain.  A
    /// stream adapter, which may meet an I/O fault at any time, leaves
    /// this false.
    open spec fn exact(&self) -> bool {
        false
    }

    /// Reads exactly `n` bytes into an owned buffer.
    fn read_n_vec(&mut self, n: usize) -> (r: Result<Vec<u8>, Error>)
        ensures
            r matches Ok(v) ==> {
                &&& n <= old(self).data().len()
                &&& v@ == old(self).data().take(n as int)
                &&& final(self).data() == old(self).data().skip(n as int)
            },
            r matches Err(e) ==> ((e is UnexpectedEof && old(self).data().len() < n)
                || e is IoError),
            n > old(self).data().len() ==> r is Err,
            old(self).exact() && n <= old(self).data().len() ==> r is Ok,
            final(self).exact() == old(self).exact();

    /// Reads a single byte.
    fn read_byte(&mut self) -> (r: Result<u8, Error>)
        ensures
            r matches Ok(b) ==> {
                &&& old(self).data().len() >= 1
                &&& b == old(self).data()[0]
                &&& final(self).data() == old(self).data().skip(1)
            },
            r matches Err(e) ==> ((e is UnexpectedEof && old(self).data().len() == 0)
                || e is IoError),
            old(self).data().len() == 0 ==> r is Err,
            old(self).exact() && old(self).data().len() >= 1 ==> r is Ok,
            final(self).exact() == old(self).exact();
}

/// A source over an in-memory byte buffer, advanced by a cursor.
#[derive(Debug, Clone, PartialEq, Eq, Hash)]
pub struct BytesReader<'a> {
    /// The unread remainder of the backing buffer.
    bytes: &'a [u8],
}

impl<'a> View for BytesReader<'a> {
    type V = Seq<u8>;

    closed spec fn view(&self) -> Seq<u8> {
        self.bytes@
    }
}

impl<'a> BytesReader<'a> {
    /// Constructs a new reader over a byte buffer.
    pub fn new(bytes: &'a [u8]) -> (r: Self)
        ensures
            r@ == bytes@,
    {
        BytesReader { bytes }
    }

    /// Returns the unread remainder as a slice of the backing buffer.
    pub fn as_slice(&self) -> (r: &'a [u8])
        ensures
            r@ == self@,
    {
        self.bytes
    }

    /// Reads the requested number of bytes as a borrowed view into the
    /// backing buffer, or fails with an end-of-stream error if fewer
    /// remain.
    pub fn read_bytes(&mut self, len: usize) -> (r: Result<&'a [u8], Error>)
        ensures
            r matches Ok(s) ==> {
                &&& len <= old(self)@.len()
                &&& s@ == old(self)@.take(len as int)
                &&& final(self)@ == old(self)@.skip(len as int)
            },
            r matches Err(e) ==> {
                &&& e is UnexpectedEof
                &&& len > old(self)@.len()
                &&& final(self)@ == old(self)@
            },
    {
        if len <= self.bytes.len() {
            let first = vstd::slice::slice_subrange(self.bytes, 0, len);
            let rest = vstd::slice::slice_subrange(self.bytes, len, self.bytes.len());
            self.bytes = rest;
            Ok(first)
        } else {
            Err(Error::UnexpectedEof)
        }
    }
}

impl<'a> Read for BytesReader<'a> {
    open spec fn data(&self) -> Seq<u8> {
        self@
    }

    /// A buffer is always exact: a read fails only past its end.
    open spec fn exact(&self) -> bool {
        true
    }

    /// Copies the requested prefix of the buffer into an owned vector.
    fn read_n_vec(&mut self, n: usize) -> (r: Result<Vec<u8>, Error>)
        ensures
            n <= old(self).data().len() ==> r is Ok,
            r is Err ==> final(self).data() == old(self).data() && r->Err_0 is UnexpectedEof,
    {
        match self.read_bytes(n) {
            Ok(s) => Ok(vstd::slice::slice_to_vec(s)),
            Err(e) => Err(e),
        }
    }

    /// Reads the first unread byte of the buffer.
    fn read_byte(&mut self) -> (r: Result<u8, Error>)
        ensures
            old(self).data().len() >= 1 ==> r is Ok,
            r is Err ==> final(self).data() == old(self).data() && r->Err_0 is UnexpectedEof,
    {
        match self.read_bytes(1) {
            Ok(s) => Ok(s[0]),
            Err(e) => Err(e),
        }
    }
}

} // verus!
