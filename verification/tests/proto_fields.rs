//! The reader of protobuf messages.
use rustpush::proto::ProtoFields;

#[test]
fn fields_are_found_by_number() {
    // 1: "hi", 2: 300, 3: bytes ff
    let f = ProtoFields::parse(&[0x0a, 2, b'h', b'i', 0x10, 0xac, 0x02, 0x1a, 1, 0xff]);
    assert_eq!(f.bytes(1), Some(&b"hi"[..]));
    assert_eq!(f.string(1), Some("hi".to_string()));
    assert_eq!(f.get_varint(2), Some(300));
    assert_eq!(f.bytes(3), Some(&[0xff][..]));
    assert_eq!(f.string(3), None, "not UTF-8");
    assert_eq!(f.bytes(2), None, "a varint is no bytes");
    assert_eq!(f.get_varint(1), None, "bytes are no varint");
    assert_eq!(f.bytes(4), None);
    assert_eq!(f.string(4), None);
    assert_eq!(f.get_varint(4), None);
}

#[test]
fn empty_message_has_no_fields() {
    let f = ProtoFields::parse(&[]);
    assert_eq!(f.bytes(1), None);
    assert_eq!(f.get_varint(1), None);
}

#[test]
fn empty_and_non_ascii_text_is_read() {
    let f = ProtoFields::parse(&[0x0a, 0, 0x12, 2, 0xc3, 0xa9]);
    assert_eq!(f.string(1), Some("".to_string()));
    assert_eq!(f.string(2), Some("é".to_string()));
}

#[test]
fn last_value_of_a_field_wins() {
    let f = ProtoFields::parse(&[0x0a, 1, b'a', 0x10, 1, 0x0a, 1, b'b', 0x10, 2]);
    assert_eq!(f.string(1), Some("b".to_string()));
    assert_eq!(f.get_varint(2), Some(2));
}

#[test]
fn one_number_can_hold_a_varint_and_bytes() {
    let f = ProtoFields::parse(&[0x08, 5, 0x0a, 1, b'x']);
    assert_eq!(f.get_varint(1), Some(5));
    assert_eq!(f.string(1), Some("x".to_string()));
}

#[test]
fn fixed_width_fields_are_skipped() {
    let mut buf = vec![0x09, 1, 2, 3, 4, 5, 6, 7, 8]; // 64 bits
    buf.extend_from_slice(&[0x15, 1, 2, 3, 4]); // 32 bits
    buf.extend_from_slice(&[0x18, 7]);
    let f = ProtoFields::parse(&buf);
    assert_eq!(f.get_varint(3), Some(7));
    assert_eq!(f.get_varint(1), None);
    assert_eq!(f.bytes(1), None);
}

#[test]
fn reading_stops_at_damage_and_keeps_what_was_read() {
    let whole = [0x08, 5];
    let tails: [&[u8]; 8] = [
        &[0x80],                         // key cut off
        &[0x10],                         // varint missing
        &[0x10, 0x80],                   // varint cut off
        &[0x11, 1, 2, 3, 4, 5, 6, 7],    // 64 bits cut off
        &[0x12],                         // length missing
        &[0x12, 3, 1, 2],                // bytes cut off
        &[0x15, 1, 2, 3],                // 32 bits cut off
        &[0x13, 0x10, 9],                // a group
    ];
    for tail in tails {
        let mut buf = whole.to_vec();
        buf.extend_from_slice(tail);
        let f = ProtoFields::parse(&buf);
        assert_eq!(f.get_varint(1), Some(5), "{tail:?}");
        assert_eq!(f.get_varint(2), None, "{tail:?}");
        assert_eq!(f.bytes(2), None, "{tail:?}");
    }
}

#[test]
fn varints_fill_64_bits() {
    let mut buf = vec![0x08];
    buf.extend_from_slice(&[0xff, 0xff, 0xff, 0xff, 0xff, 0xff, 0xff, 0xff, 0xff, 0x01]);
    assert_eq!(ProtoFields::parse(&buf).get_varint(1), Some(u64::MAX));
    // bits beyond the 64th are dropped
    buf[10] = 0x7f;
    assert_eq!(ProtoFields::parse(&buf).get_varint(1), Some(u64::MAX));
    buf[10] = 0x02;
    assert_eq!(ProtoFields::parse(&buf).get_varint(1), Some(u64::MAX >> 1));
    // a number may be written longer than it has to be
    assert_eq!(ProtoFields::parse(&[0x08, 0x81, 0x80, 0x00]).get_varint(1), Some(1));
    // an eleventh byte is too many
    let mut long = vec![0x08];
    long.extend_from_slice(&[0x80; 10]);
    long.push(0);
    assert_eq!(ProtoFields::parse(&long).get_varint(1), None);
}

#[test]
fn overlong_length_does_not_overflow() {
    let mut buf = vec![0x0a];
    buf.extend_from_slice(&[0xff, 0xff, 0xff, 0xff, 0xff, 0xff, 0xff, 0xff, 0xff, 0x01, 1, 2]);
    assert_eq!(ProtoFields::parse(&buf).bytes(1), None);
}

#[test]
fn large_field_numbers_are_read() {
    // field 536870911, varint 1
    assert_eq!(
        ProtoFields::parse(&[0xf8, 0xff, 0xff, 0xff, 0x0f, 1]).get_varint(536870911),
        Some(1)
    );
}
