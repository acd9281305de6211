use dns_query::errors::DnsError;
use dns_query::name::{decode_name, encode_name};

#[test]
fn encodes_dotted_name_as_label_sequence() {
    let wire = encode_name(b"www.example.com").unwrap();
    assert_eq!(
        wire,
        vec![
            0x03, 0x77, 0x77, 0x77, 0x07, 0x65, 0x78, 0x61, 0x6d, 0x70, 0x6c, 0x65, 0x03, 0x63,
            0x6f, 0x6d, 0x00
        ]
    );
}

#[test]
fn decodes_label_sequence_to_dotted_name() {
    let wire = vec![
        0x03u8, 0x77, 0x77, 0x77, 0x07, 0x65, 0x78, 0x61, 0x6d, 0x70, 0x6c, 0x65, 0x03, 0x63,
        0x6f, 0x6d, 0x00,
    ];
    let (name, end) = decode_name(&wire, 0).unwrap();
    assert_eq!(name, b"www.example.com".to_vec());
    assert_eq!(end, wire.len());
}

#[test]
fn name_round_trips_through_the_wire() {
    for name in [&b"a"[..], b"example.com", b"a.b.c.d", b"x-y_z.test"] {
        let wire = encode_name(name).unwrap();
        let (back, end) = decode_name(&wire, 0).unwrap();
        assert_eq!(back, name.to_vec());
        assert_eq!(end, wire.len());
    }
}

#[test]
fn empty_name_is_a_lone_terminator() {
    let wire = encode_name(b"").unwrap();
    assert_eq!(wire, vec![0x00]);
    let (name, end) = decode_name(&wire, 0).unwrap();
    assert_eq!(name, Vec::<u8>::new());
    assert_eq!(end, 1);
}

#[test]
fn decode_starts_at_the_given_offset() {
    let wire = vec![0xffu8, 0xff, 0x01, 0x61, 0x00];
    let (name, end) = decode_name(&wire, 2).unwrap();
    assert_eq!(name, b"a".to_vec());
    assert_eq!(end, 5);
}

#[test]
fn overlong_label_is_rejected_on_encode() {
    let mut name = vec![0x61u8; 256];
    assert_eq!(encode_name(&name), Err(DnsError::LabelTooLong));
    name.push(b'.');
    name.push(b'a');
    assert_eq!(encode_name(&name), Err(DnsError::LabelTooLong));
    // 255 bytes still fit a length byte.
    let just_fits = vec![0x61u8; 255];
    assert!(encode_name(&just_fits).is_ok());
}

#[test]
fn truncated_label_sequences_are_rejected() {
    // The length byte promises more bytes than remain.
    assert_eq!(decode_name(&[0x03, 0x61], 0), Err(DnsError::TruncatedInput));
    // The terminator is missing before the buffer ends.
    assert_eq!(decode_name(&[0x01, 0x61], 0), Err(DnsError::TruncatedInput));
    // An empty buffer has not even a length byte.
    assert_eq!(decode_name(&[], 0), Err(DnsError::TruncatedInput));
    // An offset at or past the end has nothing to read.
    assert_eq!(decode_name(&[0x00], 1), Err(DnsError::TruncatedInput));
}

#[test]
fn compression_pointer_is_rejected_distinctly() {
    assert_eq!(
        decode_name(&[0xc0, 0x0c], 0),
        Err(DnsError::CompressionUnsupported)
    );
    // Both high bits set is a pointer even in the middle of a name.
    assert_eq!(
        decode_name(&[0x01, 0x61, 0xc0, 0x0c], 0),
        Err(DnsError::CompressionUnsupported)
    );
    // 0xbf is still an ordinary length byte, just a truncated one here.
    assert_eq!(decode_name(&[0xbf], 0), Err(DnsError::TruncatedInput));
}
