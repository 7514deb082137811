use wireproto::ProtocolError;
use wireproto::decoder::Decoder;
use wireproto::encoder::ResponseParcel;
use wireproto::endianness::Endianness;
use wireproto::proto::{
    ElasticModulesForHoneycombArgsMessage, ElasticModulesForUnidirectionalCompositeArgsMessage,
    ElasticModulesForUnidirectionalCompositeResponseMessage,
    ThermalExpansionForUnidirectionalCompositeArgsMessage,
};
use wireproto::record::FieldValue;

fn expected_request_bytes(tag: u8) -> Vec<u8> {
    // The example request of the elastic-modules computation, laid out by
    // hand: tag, model number, six padding bytes, five doubles.
    let mut bytes = vec![tag, 2, 0, 0, 0, 0, 0, 0];
    let doubles = [0.2f64, 100.0, 0.3, 5.0, 0.2];
    for d in doubles {
        let le = u64::to_le_bytes(f64::to_bits(d));
        if tag == 0 {
            bytes.extend(le);
        } else {
            let mut be = le;
            be.reverse();
            bytes.extend(be);
        }
    }
    bytes
}

#[test]
fn example_request_bytes_match_fixture() {
    let little = ElasticModulesForUnidirectionalCompositeArgsMessage::example()
        .into_bytes(Endianness::Little);
    assert_eq!(little, expected_request_bytes(0));
    let big = ElasticModulesForUnidirectionalCompositeArgsMessage::example()
        .into_bytes(Endianness::Big);
    assert_eq!(big, expected_request_bytes(1));
}

#[test]
fn decode_recovers_encoded_request_at_either_order() {
    for order in [Endianness::Little, Endianness::Big] {
        let args = ElasticModulesForUnidirectionalCompositeArgsMessage::example();
        let bytes = args.into_bytes(order);
        let mut dec = Decoder::new(
            ElasticModulesForUnidirectionalCompositeArgsMessage::descriptor(),
            Endianness::Little,
        );
        // feed the bytes in two chunks, as a transport would
        dec.accumulate(&bytes[..10]).unwrap();
        dec.accumulate(&bytes[10..]).unwrap();
        let (tag, record) = dec.finish().unwrap();
        assert_eq!(tag, order);
        let decoded =
            ElasticModulesForUnidirectionalCompositeArgsMessage::from_record(&record).unwrap();
        assert_eq!(decoded, args);
    }
}

#[test]
fn decode_recovers_encoded_honeycomb_request() {
    let args = ElasticModulesForHoneycombArgsMessage::example();
    let bytes = args.into_bytes(Endianness::Big);
    let mut dec = Decoder::new(
        ElasticModulesForHoneycombArgsMessage::descriptor(),
        Endianness::Little,
    );
    dec.accumulate(&bytes).unwrap();
    let (tag, record) = dec.finish().unwrap();
    assert_eq!(tag, Endianness::Big);
    let decoded = ElasticModulesForHoneycombArgsMessage::from_record(&record).unwrap();
    assert_eq!(decoded, args);
}

#[test]
fn decode_recovers_tagless_response_record() {
    // A response record has no tag; the decoder falls back to the
    // injected native order.
    let resp = ElasticModulesForUnidirectionalCompositeResponseMessage::example();
    let bytes = resp.into_bytes(Endianness::Little);
    let mut dec = Decoder::new(
        ElasticModulesForUnidirectionalCompositeResponseMessage::descriptor(),
        Endianness::Little,
    );
    dec.accumulate(&bytes).unwrap();
    let (tag, record) = dec.finish().unwrap();
    assert_eq!(tag, Endianness::Little);
    assert_eq!(record, resp.to_record());
}

#[test]
fn decoded_request_fields_are_native_doubles() {
    // The little-endian fixture decodes to the exact native values.
    let bytes = expected_request_bytes(0);
    let mut dec = Decoder::new(
        ElasticModulesForUnidirectionalCompositeArgsMessage::descriptor(),
        Endianness::Little,
    );
    dec.accumulate(&bytes).unwrap();
    let (_, record) = dec.finish().unwrap();
    let args = ElasticModulesForUnidirectionalCompositeArgsMessage::from_record(&record).unwrap();
    assert_eq!(args.number_of_model, 2);
    assert_eq!(f64::from_bits(args.fibre_content), 0.2);
    assert_eq!(f64::from_bits(args.e_for_fiber), 100.0);
    assert_eq!(f64::from_bits(args.nu_for_fiber), 0.3);
    assert_eq!(f64::from_bits(args.e_for_matrix), 5.0);
    assert_eq!(f64::from_bits(args.nu_for_matrix), 0.2);
}

#[test]
fn decoder_rejects_short_buffer() {
    let bytes = expected_request_bytes(0);
    let mut dec = Decoder::new(
        ElasticModulesForUnidirectionalCompositeArgsMessage::descriptor(),
        Endianness::Little,
    );
    dec.accumulate(&bytes[..47]).unwrap();
    assert_eq!(dec.finish().unwrap_err(), ProtocolError::LengthMismatch);
    // an empty buffer is short as well
    let dec2 = Decoder::new(
        ElasticModulesForUnidirectionalCompositeArgsMessage::descriptor(),
        Endianness::Little,
    );
    assert_eq!(dec2.finish().unwrap_err(), ProtocolError::LengthMismatch);
}

#[test]
fn decoder_rejects_long_buffer() {
    let mut bytes = expected_request_bytes(0);
    bytes.push(0);
    let mut dec = Decoder::new(
        ElasticModulesForUnidirectionalCompositeArgsMessage::descriptor(),
        Endianness::Little,
    );
    assert_eq!(dec.accumulate(&bytes).unwrap_err(), ProtocolError::Overflow);
    // the buffer is untouched, so a valid body can still be assembled
    dec.accumulate(&bytes[..48]).unwrap();
    assert!(dec.finish().is_ok());
}

#[test]
fn decoder_rejects_overflow_across_chunks() {
    let bytes = expected_request_bytes(0);
    let mut dec = Decoder::new(
        ElasticModulesForUnidirectionalCompositeArgsMessage::descriptor(),
        Endianness::Little,
    );
    dec.accumulate(&bytes[..40]).unwrap();
    assert_eq!(dec.accumulate(&bytes[30..48]).unwrap_err(), ProtocolError::Overflow);
}

#[test]
fn decoder_rejects_invalid_endianness_tag() {
    for bad in [2u8, 3, 7, 128, 255] {
        let mut bytes = expected_request_bytes(0);
        bytes[0] = bad;
        let mut dec = Decoder::new(
            ElasticModulesForUnidirectionalCompositeArgsMessage::descriptor(),
            Endianness::Little,
        );
        dec.accumulate(&bytes).unwrap();
        assert_eq!(dec.finish().unwrap_err(), ProtocolError::InvalidEndianness);
    }
}

#[test]
fn try_from_u8_accepts_only_the_two_tags() {
    assert_eq!(Endianness::try_from_u8(0), Some(Endianness::Little));
    assert_eq!(Endianness::try_from_u8(1), Some(Endianness::Big));
    assert_eq!(Endianness::try_from_u8(2), None);
    assert_eq!(Endianness::try_from_u8(255), None);
    assert_eq!(Endianness::from_u8_unchecked(0), Endianness::Little);
    assert_eq!(Endianness::from_u8_unchecked(1), Endianness::Big);
}

#[test]
fn parcel_yields_exactly_once() {
    let resp = ElasticModulesForUnidirectionalCompositeResponseMessage::example();
    let mut parcel = ResponseParcel::new(
        Endianness::Little,
        ElasticModulesForUnidirectionalCompositeResponseMessage::descriptor(),
        resp.to_record(),
    );
    assert_eq!(parcel.declared_size(), 72);
    let first = parcel.next_chunk().unwrap();
    assert_eq!(first.len(), 72);
    assert!(!first.is_empty());
    for _ in 0..5 {
        assert!(parcel.next_chunk().is_none());
    }
}

#[test]
fn response_parcel_native_order_bytes() {
    // At the native (little) order the parcel emits each double's
    // little-endian bytes, concatenated in declaration order.
    let resp = ElasticModulesForUnidirectionalCompositeResponseMessage::example();
    let mut parcel = ResponseParcel::new(
        Endianness::Little,
        ElasticModulesForUnidirectionalCompositeResponseMessage::descriptor(),
        resp.to_record(),
    );
    let bytes = parcel.next_chunk().unwrap();
    let vals = [
        40.01172332942556,
        6.7364802254566305,
        6.7364802254566305,
        0.03840958253366131,
        0.03840958253366131,
        0.21620579415556423,
        2.9945407835581253,
        2.9945407835581253,
        2.769465602708258,
    ];
    let mut expected: Vec<u8> = Vec::new();
    for v in vals {
        expected.extend(u64::to_le_bytes(f64::to_bits(v)));
    }
    assert_eq!(bytes, expected);
}

#[test]
fn response_parcel_swapped_order_bytes() {
    // At the non-native order every eight-byte field is emitted reversed.
    let resp = ElasticModulesForUnidirectionalCompositeResponseMessage::example();
    let mut native = ResponseParcel::new(
        Endianness::Little,
        ElasticModulesForUnidirectionalCompositeResponseMessage::descriptor(),
        resp.to_record(),
    );
    let native_bytes = native.next_chunk().unwrap();
    let mut swapped = ResponseParcel::new(
        Endianness::Big,
        ElasticModulesForUnidirectionalCompositeResponseMessage::descriptor(),
        resp.to_record(),
    );
    let swapped_bytes = swapped.next_chunk().unwrap();
    assert_eq!(native_bytes.len(), swapped_bytes.len());
    let expected: Vec<u8> = native_bytes
        .chunks_exact(8)
        .flat_map(|chunk| chunk.iter().rev().copied().collect::<Vec<u8>>())
        .collect();
    assert_eq!(swapped_bytes, expected);
}

#[test]
fn swap_bytes_twice_is_identity() {
    for x in [
        0u64,
        1,
        0x0123456789ABCDEF,
        u64::MAX,
        f64::to_bits(0.2),
        f64::to_bits(-1.5),
    ] {
        let once = wireproto::wire::swap_bytes_u64(x);
        assert_eq!(wireproto::wire::swap_bytes_u64(once), x);
        assert_eq!(once, x.swap_bytes());
    }
}

#[test]
fn sizes_are_multiples_of_eight_and_padding_is_zero() {
    assert_eq!(ElasticModulesForUnidirectionalCompositeArgsMessage::size() % 8, 0);
    assert_eq!(ElasticModulesForHoneycombArgsMessage::size() % 8, 0);
    assert_eq!(ThermalExpansionForUnidirectionalCompositeArgsMessage::size() % 8, 0);
    assert_eq!(ElasticModulesForUnidirectionalCompositeResponseMessage::size() % 8, 0);
    let bytes = ElasticModulesForUnidirectionalCompositeArgsMessage::example()
        .into_bytes(Endianness::Little);
    assert_eq!(&bytes[2..8], &[0, 0, 0, 0, 0, 0]);
}

#[test]
fn from_record_rejects_foreign_records() {
    // too short
    let record: Vec<FieldValue> = vec![FieldValue::Byte(2)];
    assert!(ElasticModulesForUnidirectionalCompositeArgsMessage::from_record(&record).is_none());
    // right length, wrong kind in the first slot
    let record: Vec<FieldValue> = vec![
        FieldValue::Double(0),
        FieldValue::Double(0),
        FieldValue::Double(0),
        FieldValue::Double(0),
        FieldValue::Double(0),
        FieldValue::Double(0),
    ];
    assert!(ElasticModulesForUnidirectionalCompositeArgsMessage::from_record(&record).is_none());
}
