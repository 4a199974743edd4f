//! Borrowing behavior: a slice-backed source hands out string and byte
//! views that alias the input buffer, while a stream-backed source can
//! only produce owned copies.

use bincodec::{BytesReader, BytesWriter, Decoder, Encoder, Error, Read};

/// A pull-based byte stream that owns its data: every extraction
/// copies, and no borrowed view of the backing storage can be offered.
struct StreamReader {
    data: Vec<u8>,
    pos: usize,
}

impl StreamReader {
    fn new(data: Vec<u8>) -> StreamReader {
        StreamReader { data, pos: 0 }
    }
}

impl Read for StreamReader {
    fn read_n_vec(&mut self, n: usize) -> Result<Vec<u8>, Error> {
        if n <= self.data.len() - self.pos {
            let v = self.data[self.pos..self.pos + n].to_vec();
            self.pos += n;
            Ok(v)
        } else {
            Err(Error::UnexpectedEof)
        }
    }

    fn read_byte(&mut self) -> Result<u8, Error> {
        if self.pos < self.data.len() {
            let b = self.data[self.pos];
            self.pos += 1;
            Ok(b)
        } else {
            Err(Error::UnexpectedEof)
        }
    }
}

fn record_bytes() -> Vec<u8> {
    // the record {flag: true, label: "hi", blob: [7, 8]}
    let mut encoder = Encoder::new(BytesWriter::new());
    encoder.encode_bool(true).unwrap();
    encoder.encode_str("hi").unwrap();
    encoder.encode_bytes(&[7, 8]).unwrap();
    encoder.into_writer().into_inner()
}

#[test]
fn borrowed_views_alias_slice_input() {
    let bytes = record_bytes();
    assert_eq!(bytes, vec![1, 1, 2, 104, 105, 1, 2, 7, 8]);
    let mut decoder = Decoder::new(BytesReader::new(&bytes));
    assert_eq!(decoder.decode_bool().unwrap(), true);
    let label = decoder.decode_str_borrowed().unwrap();
    assert_eq!(label, "hi");
    // the view aliases the input buffer instead of copying it
    assert!(std::ptr::eq(label.as_ptr(), bytes[3..].as_ptr()));
    let blob = decoder.decode_bytes_borrowed().unwrap();
    assert_eq!(blob, &[7u8, 8]);
    assert!(std::ptr::eq(blob.as_ptr(), bytes[7..].as_ptr()));
}

#[test]
fn stream_source_copies_into_owned_values() {
    let bytes = record_bytes();
    let mut decoder = Decoder::new(StreamReader::new(bytes));
    assert_eq!(decoder.decode_bool().unwrap(), true);
    // a stream-backed source offers no borrowing path; owned decoding
    // still works
    let label = decoder.decode_string().unwrap();
    assert_eq!(label, "hi");
    let blob = decoder.read_bytes_with_large_len().unwrap();
    assert_eq!(blob, vec![7, 8]);
}

#[test]
fn stream_source_hits_eof() {
    let mut decoder = Decoder::new(StreamReader::new(vec![1, 2]));
    assert!(matches!(decoder.decode_u32(), Err(Error::UnexpectedEof)));
}

#[test]
fn borrowed_decode_fails_on_short_input() {
    // stated length 5, only one payload byte present
    let bytes = [1u8, 5, 104];
    let mut decoder = Decoder::new(BytesReader::new(&bytes));
    assert!(matches!(
        decoder.decode_str_borrowed(),
        Err(Error::UnexpectedEof)
    ));
}

#[test]
fn reader_view_advances() {
    let bytes = [1u8, 2, 3, 4];
    let mut reader = BytesReader::new(&bytes);
    assert_eq!(reader.as_slice(), &[1u8, 2, 3, 4]);
    let first = reader.read_bytes(3).unwrap();
    assert_eq!(first, &[1u8, 2, 3]);
    assert_eq!(reader.as_slice(), &[4u8]);
    assert!(matches!(reader.read_bytes(2), Err(Error::UnexpectedEof)));
    assert_eq!(reader.as_slice(), &[4u8]);
}

#[test]
fn writer_buffer_access() {
    let mut writer = BytesWriter::new();
    bincodec::Write::write_all(&mut writer, &[1, 2, 3]).unwrap();
    bincodec::Write::flush(&mut writer).unwrap();
    assert_eq!(writer.as_slice(), &[1u8, 2, 3]);
    writer.as_slice_mut()[0] = 9;
    assert_eq!(writer.into_inner(), vec![9, 2, 3]);
}
