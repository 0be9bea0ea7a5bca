use odr_mesh::apollo::{parse_apollo_map, parse_apollo_map_internal, ApolloField};

#[test]
fn empty_buffer_is_empty_map() {
    let map = parse_apollo_map(&[]).unwrap();
    assert!(map.fields().is_empty());
}

#[test]
fn top_level_fields_are_split() {
    // field 1: two bytes "AB"; field 2: varint 5; field 3: fixed 32 bits
    let buf = [0x0a, 0x02, 0x41, 0x42, 0x10, 0x05, 0x1d, 1, 2, 3, 4];
    let map = parse_apollo_map(&buf).unwrap();
    assert_eq!(
        map.fields(),
        &[
            ApolloField { tag: 1, wire_type: 2, start: 0, end: 4 },
            ApolloField { tag: 2, wire_type: 0, start: 4, end: 6 },
            ApolloField { tag: 3, wire_type: 5, start: 6, end: 11 },
        ]
    );
}

#[test]
fn multi_byte_keys_and_lengths_are_read() {
    // field 16 (key 0x82 0x01), length 130 (0x82 0x01), then 130 bytes
    let mut buf = vec![0x82, 0x01, 0x82, 0x01];
    buf.extend(std::iter::repeat(7u8).take(130));
    let map = parse_apollo_map_internal(&buf).unwrap();
    assert_eq!(
        map.fields(),
        &[ApolloField { tag: 16, wire_type: 2, start: 0, end: 134 }]
    );
}

#[test]
fn truncated_value_is_an_error() {
    assert!(parse_apollo_map(&[0x0a, 0x05, 0x41]).is_err());
    assert!(parse_apollo_map(&[0x0d, 1, 2]).is_err());
}

#[test]
fn zero_tag_is_an_error() {
    let err = parse_apollo_map(&[0x00, 0x01]).unwrap_err();
    assert!(err.starts_with("Failed to decode Apollo map: "));
    assert!(err.len() > "Failed to decode Apollo map: ".len());
}

#[test]
fn stray_end_of_group_is_an_error() {
    // key of field 1 with wire type 4
    assert!(parse_apollo_map_internal(&[0x0c]).is_err());
}

#[test]
fn wire_types_six_and_seven_are_errors() {
    assert!(parse_apollo_map(&[0x0e]).is_err());
    assert!(parse_apollo_map(&[0x0f]).is_err());
}

#[test]
fn fixed_64_bit_value_takes_eight_bytes() {
    let buf = [0x09, 1, 2, 3, 4, 5, 6, 7, 8, 0x10, 0x01];
    let map = parse_apollo_map(&buf).unwrap();
    assert_eq!(
        map.fields(),
        &[
            ApolloField { tag: 1, wire_type: 1, start: 0, end: 9 },
            ApolloField { tag: 2, wire_type: 0, start: 9, end: 11 },
        ]
    );
}

#[test]
fn group_is_stepped_over_to_its_end_key() {
    // field 1 opens a group holding field 2 = 1, closed by field 1's end key
    let buf = [0x0b, 0x10, 0x01, 0x0c, 0x18, 0x02];
    let map = parse_apollo_map(&buf).unwrap();
    assert_eq!(
        map.fields(),
        &[
            ApolloField { tag: 1, wire_type: 3, start: 0, end: 4 },
            ApolloField { tag: 3, wire_type: 0, start: 4, end: 6 },
        ]
    );
}

#[test]
fn overlong_varint_is_an_error() {
    // eleven continuation bytes never end the key
    let buf = [0x80u8; 11];
    assert!(parse_apollo_map(&buf).is_err());
    // a ten-byte key whose last byte overflows 64 bits
    let mut key = vec![0x88u8, 0x80, 0x80, 0x80, 0x80, 0x80, 0x80, 0x80, 0x80, 0x02];
    key.push(0x00);
    assert!(parse_apollo_map(&key).is_err());
}

#[test]
fn unterminated_key_is_an_error() {
    assert!(parse_apollo_map(&[0x80]).is_err());
}
