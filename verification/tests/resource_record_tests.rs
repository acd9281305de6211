use dns_query::errors::DnsError;
use dns_query::resource_record::{DnsQueryResourceRecord, DnsQueryResourceRecordRData};
use dns_query::utils::{DnsQueryClass, DnsQueryType};

/// A record with an empty (root) name: type A, class IN, ttl 0x2f19,
/// rd_length 4 and the address 93.184.216.34.
fn a_record_wire() -> Vec<u8> {
    vec![
        0x00, // root name
        0x00, 0x01, // type A
        0x00, 0x01, // class IN
        0x00, 0x00, 0x2f, 0x19, // ttl
        0x00, 0x04, // rd_length
        0x5d, 0xb8, 0xd8, 0x22, // rdata
    ]
}

#[test]
fn decodes_in_a_record_as_host_address() {
    let wire = a_record_wire();
    let (rr, end) = DnsQueryResourceRecord::decode(&wire, 0).unwrap();
    assert_eq!(rr.name, Vec::<u8>::new());
    assert_eq!(rr.type_, DnsQueryType::A);
    assert_eq!(rr.class, DnsQueryClass::In);
    assert_eq!(rr.ttl, 0x2f19);
    assert!(matches!(
        rr.r_data,
        DnsQueryResourceRecordRData::Ipv4Addr(93, 184, 216, 34)
    ));
    assert_eq!(end, wire.len());
}

#[test]
fn declared_rd_length_longer_than_buffer_is_truncated() {
    // rd_length says 6 but only 3 bytes remain.
    let mut wire = a_record_wire();
    wire.truncate(wire.len() - 4);
    wire[10] = 0x06;
    wire.extend_from_slice(&[0xaa, 0xbb, 0xcc]);
    assert_eq!(
        DnsQueryResourceRecord::decode(&wire, 0).unwrap_err(),
        DnsError::TruncatedInput
    );
}

#[test]
fn in_a_record_with_wrong_rd_length_is_malformed() {
    // rd_length 3 with 3 bytes present: consistent lengths, but an A record
    // must carry exactly 4 bytes of address.
    let mut wire = a_record_wire();
    wire.truncate(wire.len() - 4);
    wire[10] = 0x03;
    wire.extend_from_slice(&[0x5d, 0xb8, 0xd8]);
    assert_eq!(
        DnsQueryResourceRecord::decode(&wire, 0).unwrap_err(),
        DnsError::MalformedRData
    );
}

#[test]
fn decodes_in_cname_record_as_text() {
    let mut wire = vec![
        0x00, // root name
        0x00, 0x05, // type CNAME
        0x00, 0x01, // class IN
        0x00, 0x00, 0x00, 0x3c, // ttl
        0x00, 0x0d, // rd_length: 13
    ];
    wire.extend_from_slice(&[
        0x07, 0x65, 0x78, 0x61, 0x6d, 0x70, 0x6c, 0x65, 0x03, 0x63, 0x6f, 0x6d, 0x00,
    ]);
    let (rr, end) = DnsQueryResourceRecord::decode(&wire, 0).unwrap();
    assert_eq!(rr.type_, DnsQueryType::CName);
    assert!(matches!(
        &rr.r_data,
        DnsQueryResourceRecordRData::Text(n) if n == &b"example.com".to_vec()
    ));
    assert_eq!(end, wire.len());
}

#[test]
fn non_in_class_keeps_raw_rdata() {
    // Class CH with type A: no type-specific interpretation applies.
    let wire = vec![
        0x00, // root name
        0x00, 0x01, // type A
        0x00, 0x03, // class CH
        0x00, 0x00, 0x00, 0x00, // ttl
        0x00, 0x02, // rd_length
        0xde, 0xad,
    ];
    let (rr, end) = DnsQueryResourceRecord::decode(&wire, 0).unwrap();
    assert!(matches!(
        &rr.r_data,
        DnsQueryResourceRecordRData::_Other(v) if v == &vec![0xde, 0xad]
    ));
    assert_eq!(end, wire.len());
}

#[test]
fn opaque_rdata_consumes_only_rd_length_bytes() {
    // Two trailing bytes after the record are not part of the rdata.
    let wire = vec![
        0x00, 0x00, 0x10, 0x00, 0x01, // root name, type TXT, class IN
        0x00, 0x00, 0x00, 0x00, // ttl
        0x00, 0x01, // rd_length
        0x41, // rdata
        0x99, 0x98, // unrelated trailing bytes
    ];
    let (rr, end) = DnsQueryResourceRecord::decode(&wire, 0).unwrap();
    assert!(matches!(
        &rr.r_data,
        DnsQueryResourceRecordRData::_Other(v) if v == &vec![0x41]
    ));
    assert_eq!(end, wire.len() - 2);
}

#[test]
fn a_record_round_trips_and_recomputes_rd_length() {
    let rr = DnsQueryResourceRecord {
        name: b"www.example.com".to_vec(),
        type_: DnsQueryType::A,
        class: DnsQueryClass::In,
        ttl: 12057,
        r_data: DnsQueryResourceRecordRData::Ipv4Addr(93, 184, 216, 34),
    };
    let wire = rr.encode().unwrap();
    // The length field just before the last four bytes reads 4.
    assert_eq!(wire[wire.len() - 6], 0x00);
    assert_eq!(wire[wire.len() - 5], 0x04);
    let (back, end) = DnsQueryResourceRecord::decode(&wire, 0).unwrap();
    assert_eq!(back.name, rr.name);
    assert_eq!(back.type_, rr.type_);
    assert_eq!(back.class, rr.class);
    assert_eq!(back.ttl, rr.ttl);
    assert!(matches!(
        back.r_data,
        DnsQueryResourceRecordRData::Ipv4Addr(93, 184, 216, 34)
    ));
    assert_eq!(end, wire.len());
}

#[test]
fn cname_record_round_trips_through_the_wire() {
    let rr = DnsQueryResourceRecord {
        name: b"alias.example.com".to_vec(),
        type_: DnsQueryType::CName,
        class: DnsQueryClass::In,
        ttl: 60,
        r_data: DnsQueryResourceRecordRData::Text(b"canonical.example.com".to_vec()),
    };
    let wire = rr.encode().unwrap();
    let (back, end) = DnsQueryResourceRecord::decode(&wire, 0).unwrap();
    assert_eq!(back.name, rr.name);
    assert!(matches!(
        &back.r_data,
        DnsQueryResourceRecordRData::Text(n) if n == &b"canonical.example.com".to_vec()
    ));
    assert_eq!(end, wire.len());
}

#[test]
fn unknown_type_code_survives_a_record_round_trip() {
    // Type 64 falls in an unassigned range: the decoded variant keeps the
    // raw code, and re-encoding reproduces the original bytes.
    let wire = vec![
        0x00, // root name
        0x00, 0x40, // type 64, unassigned
        0x00, 0x01, // class IN
        0x00, 0x00, 0x00, 0x05, // ttl
        0x00, 0x02, // rd_length
        0xca, 0xfe,
    ];
    let (rr, end) = DnsQueryResourceRecord::decode(&wire, 0).unwrap();
    assert_eq!(rr.type_, DnsQueryType::_UnAssign64To98(64));
    assert_eq!(end, wire.len());
    assert_eq!(rr.encode().unwrap(), wire);
}

#[test]
fn unknown_class_code_survives_a_record_round_trip() {
    // Class 100 falls in an unassigned range: no type-specific
    // interpretation applies, and the raw code is written back unchanged.
    let wire = vec![
        0x00, // root name
        0x00, 0x01, // type A
        0x00, 0x64, // class 100, unassigned
        0x00, 0x00, 0x00, 0x00, // ttl
        0x00, 0x03, // rd_length
        0x01, 0x02, 0x03,
    ];
    let (rr, end) = DnsQueryResourceRecord::decode(&wire, 0).unwrap();
    assert_eq!(rr.class, DnsQueryClass::_UnAssign5To253(100));
    assert!(matches!(
        &rr.r_data,
        DnsQueryResourceRecordRData::_Other(v) if v == &vec![0x01, 0x02, 0x03]
    ));
    assert_eq!(end, wire.len());
    assert_eq!(rr.encode().unwrap(), wire);
}

#[test]
fn overlong_rdata_fails_to_encode() {
    let rr = DnsQueryResourceRecord {
        name: b"big.example".to_vec(),
        type_: DnsQueryType::Txt,
        class: DnsQueryClass::In,
        ttl: 0,
        r_data: DnsQueryResourceRecordRData::_Other(vec![0u8; 0x10000]),
    };
    assert_eq!(rr.encode(), Err(DnsError::MalformedRData));
}

#[test]
fn overlong_label_in_record_name_fails_to_encode() {
    let rr = DnsQueryResourceRecord {
        name: vec![0x61; 256],
        type_: DnsQueryType::A,
        class: DnsQueryClass::In,
        ttl: 0,
        r_data: DnsQueryResourceRecordRData::Ipv4Addr(1, 2, 3, 4),
    };
    assert_eq!(rr.encode(), Err(DnsError::LabelTooLong));
}
