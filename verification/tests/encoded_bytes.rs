//! The full wire image of a record holding every supported shape, byte
//! for byte, and the decode of that image back to the same values.

use bincodec::{
    BytesReader, BytesWriter, Decoder, Encoder, MapDecoder, MapEncoder, Read, SeqDecoder,
    SeqEncoder, StructEncoder, StructVariantEncoder, TupleEncoder, TupleStructEncoder,
    TupleVariantEncoder, Write,
};
use std::collections::HashMap;

#[test]
fn test_encoded_bytes() {
    let mut encoder = Encoder::new(BytesWriter::new());

    // the fields of the record, in declaration order
    encoder.encode_bool(true).unwrap();
    encoder.encode_i8(-128).unwrap();
    encoder.encode_i16(-32768).unwrap();
    encoder.encode_i32(-2147483648).unwrap();
    encoder.encode_i64(-9223372036854775808).unwrap();
    encoder
        .encode_i128(-170141183460469231731687303715884105728)
        .unwrap();
    encoder.encode_u8(255).unwrap();
    encoder.encode_u16(65535).unwrap();
    encoder.encode_u32(4294967295).unwrap();
    encoder.encode_u64(18446744073709551615).unwrap();
    encoder
        .encode_u128(340282366920938463463374607431768211455)
        .unwrap();
    // floating-point fields go through the writer as raw IEEE-754 bytes
    encoder.writer().write_all(&6.25f32.to_be_bytes()).unwrap();
    encoder.writer().write_all(&3.125f64.to_be_bytes()).unwrap();
    encoder.encode_char('A').unwrap();
    encoder.encode_str("my string").unwrap();
    encoder.encode_str("my owned string").unwrap();
    encoder.encode_bytes(&[0, 1, 2, 3]).unwrap();
    encoder.encode_none().unwrap();
    encoder.encode_some_marker().unwrap();
    encoder.encode_u8(4).unwrap();
    encoder.encode_unit().unwrap();
    encoder.encode_unit().unwrap();
    encoder.encode_variant_tag("MyEnum", 0).unwrap();
    encoder.encode_u8(5).unwrap();
    encoder.encode_variant_tag("MyEnum", 1).unwrap();
    encoder.encode_u8(6).unwrap();
    SeqEncoder::new(&mut encoder, 5).unwrap();
    for b in [7u8, 8, 9, 10, 11] {
        encoder.encode_u8(b).unwrap();
    }
    let _ = TupleEncoder::new(&mut encoder);
    encoder.encode_unit().unwrap();
    encoder.encode_bool(false).unwrap();
    encoder.encode_u8(12).unwrap();
    let _ = TupleStructEncoder::new(&mut encoder);
    encoder.encode_unit().unwrap();
    encoder.encode_bool(true).unwrap();
    encoder.encode_u8(13).unwrap();
    TupleVariantEncoder::new(&mut encoder, "MyEnum", 2).unwrap();
    encoder.encode_unit().unwrap();
    encoder.encode_bool(false).unwrap();
    encoder.encode_u8(14).unwrap();
    MapEncoder::new(&mut encoder, 3).unwrap();
    for (k, v) in [(15u8, 16u8), (17, 18), (19, 20)] {
        encoder.encode_u8(k).unwrap();
        encoder.encode_u8(v).unwrap();
    }
    let _ = StructEncoder::new(&mut encoder);
    encoder.encode_unit().unwrap();
    encoder.encode_bool(true).unwrap();
    encoder.encode_u8(21).unwrap();
    StructVariantEncoder::new(&mut encoder, "MyEnum", 3).unwrap();
    encoder.encode_unit().unwrap();
    encoder.encode_bool(false).unwrap();
    encoder.encode_u8(22).unwrap();

    let serialized_value = encoder.into_writer().into_inner();
    let mut serialized_iter = serialized_value.iter();

    let mut next_n = |n: usize| {
        (0..n).fold(Vec::new(), |mut items, _| {
            if let Some(item) = serialized_iter.next() {
                items.push(*item);
            }

            items
        })
    };

    // bool_field
    assert_eq!(next_n(1), [1]);

    // i8_field
    assert_eq!(next_n(1), [128]);

    // i16_field
    assert_eq!(next_n(2), [128, 0]);

    // i32_field
    assert_eq!(next_n(4), [128, 0, 0, 0]);

    // i64_field
    assert_eq!(next_n(8), [128, 0, 0, 0, 0, 0, 0, 0]);

    // i128_field
    assert_eq!(
        next_n(16),
        [128, 0, 0, 0, 0, 0, 0, 0, 0, 0, 0, 0, 0, 0, 0, 0]
    );

    // u8_field
    assert_eq!(next_n(1), [255]);

    // u16_field
    assert_eq!(next_n(2), [255, 255]);

    // u32_field
    assert_eq!(next_n(4), [255, 255, 255, 255]);

    // u64_field
    assert_eq!(next_n(8), [255, 255, 255, 255, 255, 255, 255, 255]);

    // u128_field
    assert_eq!(
        next_n(16),
        [255, 255, 255, 255, 255, 255, 255, 255, 255, 255, 255, 255, 255, 255, 255, 255]
    );

    // f32_field
    assert_eq!(next_n(4), [64, 200, 0, 0]);

    // f64_field
    assert_eq!(next_n(8), [64, 9, 0, 0, 0, 0, 0, 0]);

    // char_field
    assert_eq!(next_n(2), [1, 65]);

    // str_field
    assert_eq!(
        next_n(11),
        [1, 9, 109, 121, 32, 115, 116, 114, 105, 110, 103]
    );

    // string_field
    assert_eq!(
        next_n(17),
        [1, 15, 109, 121, 32, 111, 119, 110, 101, 100, 32, 115, 116, 114, 105, 110, 103]
    );

    // bytes_field
    assert_eq!(next_n(6), [1, 4, 0, 1, 2, 3]);

    // option_none_field
    assert_eq!(next_n(1), [0]);

    // option_some_field
    assert_eq!(next_n(2), [1, 4]);

    // unit_field: no bytes
    // unit_struct_field: no bytes

    // unit_variant_field
    assert_eq!(next_n(1), [0]);

    // newtype_struct_field
    assert_eq!(next_n(1), [5]);

    // newtype_variant_field
    assert_eq!(next_n(2), [1, 6]);

    // seq_field
    assert_eq!(next_n(7), [1, 5, 7, 8, 9, 10, 11]);

    // tuple_field
    assert_eq!(next_n(2), [0, 12]);

    // tuple_struct_field
    assert_eq!(next_n(2), [1, 13]);

    // tuple_variant_field
    assert_eq!(next_n(3), [2, 0, 14]);

    // map_field
    assert_eq!(next_n(2), [1, 3]);
    let mut map_pairs: HashMap<u8, u8> = HashMap::new();
    for _ in 0..3 {
        let k = next_n(1)[0];
        let v = next_n(1)[0];
        map_pairs.insert(k, v);
    }
    let mut map_expected_pairs: HashMap<u8, u8> = HashMap::new();
    map_expected_pairs.insert(15, 16);
    map_expected_pairs.insert(17, 18);
    map_expected_pairs.insert(19, 20);
    assert_eq!(map_pairs, map_expected_pairs);

    // struct_field
    assert_eq!(next_n(2), [1, 21]);

    // struct_variant_field
    assert_eq!(next_n(3), [3, 0, 22]);

    // check that this is the end of the output
    assert!(serialized_iter.next().is_none());

    // deserialize
    let mut decoder = Decoder::new(BytesReader::new(&serialized_value));
    assert_eq!(decoder.decode_bool().unwrap(), true);
    assert_eq!(decoder.decode_i8().unwrap(), -128);
    assert_eq!(decoder.decode_i16().unwrap(), -32768);
    assert_eq!(decoder.decode_i32().unwrap(), -2147483648);
    assert_eq!(decoder.decode_i64().unwrap(), -9223372036854775808);
    assert_eq!(
        decoder.decode_i128().unwrap(),
        -170141183460469231731687303715884105728
    );
    assert_eq!(decoder.decode_u8().unwrap(), 255);
    assert_eq!(decoder.decode_u16().unwrap(), 65535);
    assert_eq!(decoder.decode_u32().unwrap(), 4294967295);
    assert_eq!(decoder.decode_u64().unwrap(), 18446744073709551615);
    assert_eq!(
        decoder.decode_u128().unwrap(),
        340282366920938463463374607431768211455
    );
    let f32_bytes = decoder.reader().read_n_vec(4).unwrap();
    assert_eq!(
        f32::from_be_bytes([f32_bytes[0], f32_bytes[1], f32_bytes[2], f32_bytes[3]]),
        6.25
    );
    let f64_bytes = decoder.reader().read_n_vec(8).unwrap();
    assert_eq!(
        f64::from_be_bytes([
            f64_bytes[0],
            f64_bytes[1],
            f64_bytes[2],
            f64_bytes[3],
            f64_bytes[4],
            f64_bytes[5],
            f64_bytes[6],
            f64_bytes[7]
        ]),
        3.125
    );
    assert_eq!(decoder.decode_char().unwrap(), 'A');
    assert_eq!(decoder.decode_str_borrowed().unwrap(), "my string");
    assert_eq!(decoder.decode_string().unwrap(), "my owned string");
    assert_eq!(decoder.decode_bytes_borrowed().unwrap(), &[0u8, 1, 2, 3]);
    assert_eq!(decoder.decode_option_tag().unwrap(), false);
    assert_eq!(decoder.decode_option_tag().unwrap(), true);
    assert_eq!(decoder.decode_u8().unwrap(), 4);
    decoder.decode_unit().unwrap();
    decoder.decode_unit().unwrap();
    assert_eq!(decoder.decode_variant_tag().unwrap(), 0);
    assert_eq!(decoder.decode_u8().unwrap(), 5);
    assert_eq!(decoder.decode_variant_tag().unwrap(), 1);
    assert_eq!(decoder.decode_u8().unwrap(), 6);
    let seq_len: usize = decoder.decode_len().unwrap();
    let mut seq_driver = SeqDecoder::new(seq_len);
    assert_eq!(seq_driver.size_hint(), 5);
    let mut seq_items: Vec<u8> = Vec::new();
    while seq_driver.next_element() {
        seq_items.push(decoder.decode_u8().unwrap());
    }
    assert_eq!(seq_items, vec![7, 8, 9, 10, 11]);
    decoder.decode_unit().unwrap();
    assert_eq!(decoder.decode_bool().unwrap(), false);
    assert_eq!(decoder.decode_u8().unwrap(), 12);
    decoder.decode_unit().unwrap();
    assert_eq!(decoder.decode_bool().unwrap(), true);
    assert_eq!(decoder.decode_u8().unwrap(), 13);
    assert_eq!(decoder.decode_variant_tag().unwrap(), 2);
    decoder.decode_unit().unwrap();
    assert_eq!(decoder.decode_bool().unwrap(), false);
    assert_eq!(decoder.decode_u8().unwrap(), 14);
    let map_len: usize = decoder.decode_len().unwrap();
    let mut map_driver = MapDecoder::new(map_len);
    assert_eq!(map_driver.size_hint(), 3);
    let mut decoded_map: HashMap<u8, u8> = HashMap::new();
    while map_driver.next_key() {
        let k = decoder.decode_u8().unwrap();
        let v = decoder.decode_u8().unwrap();
        decoded_map.insert(k, v);
    }
    assert_eq!(decoded_map, map_expected_pairs);
    decoder.decode_unit().unwrap();
    assert_eq!(decoder.decode_bool().unwrap(), true);
    assert_eq!(decoder.decode_u8().unwrap(), 21);
    assert_eq!(decoder.decode_variant_tag().unwrap(), 3);
    decoder.decode_unit().unwrap();
    assert_eq!(decoder.decode_bool().unwrap(), false);
    assert_eq!(decoder.decode_u8().unwrap(), 22);
    assert!(decoder.reader().as_slice().is_empty());
}
