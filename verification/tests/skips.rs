//! A record whose definition marks some fields as always-omitted still
//! serializes every present field, and the present fields decode back
//! to the same values.  Also checks that the engines can be handed
//! across threads.

use bincodec::{
    BytesReader, BytesWriter, Decoder, Encoder, MapDecoder, MapEncoder, Read, SeqDecoder,
    SeqEncoder, StructVariantEncoder, TupleStructEncoder, Write,
};
use std::collections::HashMap;

#[test]
fn test_skips() {
    // encode only the present (non-omitted) fields, in declaration
    // order
    let mut encoder = Encoder::new(BytesWriter::new());
    encoder.encode_bool(true).unwrap();
    encoder.encode_i16(-32768).unwrap();
    encoder.encode_i64(-9223372036854775808).unwrap();
    encoder.encode_u8(255).unwrap();
    encoder.encode_u32(4294967295).unwrap();
    encoder
        .encode_u128(340282366920938463463374607431768211455)
        .unwrap();
    encoder.writer().write_all(&3.125f64.to_be_bytes()).unwrap();
    encoder.encode_str("my string").unwrap();
    encoder.encode_bytes(&[0, 1, 2, 3]).unwrap();
    encoder.encode_some_marker().unwrap();
    encoder.encode_u8(4).unwrap();
    encoder.encode_unit().unwrap();
    encoder.encode_u8(5).unwrap();
    SeqEncoder::new(&mut encoder, 5).unwrap();
    for b in [7u8, 8, 9, 10, 11] {
        encoder.encode_u8(b).unwrap();
    }
    let _ = TupleStructEncoder::new(&mut encoder);
    encoder.encode_unit().unwrap();
    encoder.encode_bool(true).unwrap();
    encoder.encode_u8(13).unwrap();
    MapEncoder::new(&mut encoder, 3).unwrap();
    for (k, v) in [(15u8, 16u8), (17, 18), (19, 20)] {
        encoder.encode_u8(k).unwrap();
        encoder.encode_u8(v).unwrap();
    }
    StructVariantEncoder::new(&mut encoder, "MyEnum", 3).unwrap();
    encoder.encode_unit().unwrap();
    encoder.encode_bool(false).unwrap();
    encoder.encode_u8(22).unwrap();
    let serialized_value = encoder.into_writer().into_inner();

    // decode the present fields back
    let mut decoder = Decoder::new(BytesReader::new(&serialized_value));
    assert_eq!(decoder.decode_bool().unwrap(), true);
    assert_eq!(decoder.decode_i16().unwrap(), -32768);
    assert_eq!(decoder.decode_i64().unwrap(), -9223372036854775808);
    assert_eq!(decoder.decode_u8().unwrap(), 255);
    assert_eq!(decoder.decode_u32().unwrap(), 4294967295);
    assert_eq!(
        decoder.decode_u128().unwrap(),
        340282366920938463463374607431768211455
    );
    let f64_bytes = decoder.reader().read_n_vec(8).unwrap();
    assert_eq!(
        f64::from_be_bytes([
            f64_bytes[0],
            f64_bytes[1],
            f64_bytes[2],
            f64_bytes[3],
            f64_bytes[4],
            f64_bytes[5],
            f64_bytes[6],
            f64_bytes[7]
        ]),
        3.125
    );
    assert_eq!(decoder.decode_str_borrowed().unwrap(), "my string");
    assert_eq!(decoder.decode_bytes_borrowed().unwrap(), &[0u8, 1, 2, 3]);
    assert_eq!(decoder.decode_option_tag().unwrap(), true);
    assert_eq!(decoder.decode_u8().unwrap(), 4);
    decoder.decode_unit().unwrap();
    assert_eq!(decoder.decode_u8().unwrap(), 5);
    let seq_len: usize = decoder.decode_len().unwrap();
    let mut seq_driver = SeqDecoder::new(seq_len);
    let mut seq_items: Vec<u8> = Vec::new();
    while seq_driver.next_element() {
        seq_items.push(decoder.decode_u8().unwrap());
    }
    assert_eq!(seq_items, vec![7, 8, 9, 10, 11]);
    decoder.decode_unit().unwrap();
    assert_eq!(decoder.decode_bool().unwrap(), true);
    assert_eq!(decoder.decode_u8().unwrap(), 13);
    let map_len: usize = decoder.decode_len().unwrap();
    let mut map_driver = MapDecoder::new(map_len);
    let mut decoded_map: HashMap<u8, u8> = HashMap::new();
    while map_driver.next_key() {
        let k = decoder.decode_u8().unwrap();
        let v = decoder.decode_u8().unwrap();
        decoded_map.insert(k, v);
    }
    let mut expected_map: HashMap<u8, u8> = HashMap::new();
    expected_map.insert(15, 16);
    expected_map.insert(17, 18);
    expected_map.insert(19, 20);
    assert_eq!(decoded_map, expected_map);
    assert_eq!(decoder.decode_variant_tag().unwrap(), 3);
    decoder.decode_unit().unwrap();
    assert_eq!(decoder.decode_bool().unwrap(), false);
    assert_eq!(decoder.decode_u8().unwrap(), 22);
    assert!(decoder.reader().as_slice().is_empty());
}

fn assert_send<T: Send>(_x: &T) {}

fn assert_sync<T: Sync>(_x: &T) {}

#[test]
fn test_send_sync() {
    assert_send(&Encoder::new(BytesWriter::new()));
    assert_sync(&Encoder::new(BytesWriter::new()));
    assert_send(&Decoder::new(BytesReader::new(&[])));
    assert_sync(&Decoder::new(BytesReader::new(&[])));
    assert_send(&BytesWriter::new());
    assert_sync(&BytesReader::new(&[]));
}
