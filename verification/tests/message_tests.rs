use dns_query::errors::DnsError;
use dns_query::header::{DnsQueryHeader, DnsQueryHeaderFlags};
use dns_query::message::{section_counts_supported, DnsQuery};
use dns_query::question::DnsQueryQuestion;
use dns_query::resource_record::{DnsQueryResourceRecord, DnsQueryResourceRecordRData};
use dns_query::utils::{DnsQueryClass, DnsQueryType};

fn sample_message() -> DnsQuery {
    DnsQuery {
        header: DnsQueryHeader {
            id: 0x1234,
            flags: DnsQueryHeaderFlags(0x8180),
            qd_count: 1,
            an_count: 1,
            ns_count: 1,
            ar_count: 1,
        },
        question: DnsQueryQuestion {
            q_name: b"www.example.com".to_vec(),
            q_type: DnsQueryType::A,
            q_class: DnsQueryClass::In,
        },
        answer: DnsQueryResourceRecord {
            name: b"www.example.com".to_vec(),
            type_: DnsQueryType::A,
            class: DnsQueryClass::In,
            ttl: 12057,
            r_data: DnsQueryResourceRecordRData::Ipv4Addr(93, 184, 216, 34),
        },
        authority: DnsQueryResourceRecord {
            name: b"example.com".to_vec(),
            type_: DnsQueryType::Ns,
            class: DnsQueryClass::In,
            ttl: 3600,
            r_data: DnsQueryResourceRecordRData::_Other(vec![0x02, 0x6e, 0x73, 0x00]),
        },
        additional: DnsQueryResourceRecord {
            name: b"ns".to_vec(),
            type_: DnsQueryType::A,
            class: DnsQueryClass::In,
            ttl: 3600,
            r_data: DnsQueryResourceRecordRData::Ipv4Addr(192, 0, 2, 1),
        },
    }
}

fn assert_same_message(a: &DnsQuery, b: &DnsQuery) {
    assert_eq!(a.header, b.header);
    assert_eq!(a.question.q_name, b.question.q_name);
    assert_eq!(a.question.q_type, b.question.q_type);
    assert_eq!(a.question.q_class, b.question.q_class);
    for (x, y) in [
        (&a.answer, &b.answer),
        (&a.authority, &b.authority),
        (&a.additional, &b.additional),
    ] {
        assert_eq!(x.name, y.name);
        assert_eq!(x.type_, y.type_);
        assert_eq!(x.class, y.class);
        assert_eq!(x.ttl, y.ttl);
        match (&x.r_data, &y.r_data) {
            (
                DnsQueryResourceRecordRData::Ipv4Addr(a0, a1, a2, a3),
                DnsQueryResourceRecordRData::Ipv4Addr(b0, b1, b2, b3),
            ) => assert_eq!((a0, a1, a2, a3), (b0, b1, b2, b3)),
            (
                DnsQueryResourceRecordRData::Text(v),
                DnsQueryResourceRecordRData::Text(w),
            ) => assert_eq!(v, w),
            (
                DnsQueryResourceRecordRData::_Other(v),
                DnsQueryResourceRecordRData::_Other(w),
            ) => assert_eq!(v, w),
            _ => panic!("resource data variants differ"),
        }
    }
}

#[test]
fn message_round_trips_through_the_wire() {
    let m = sample_message();
    let wire = m.encode().unwrap();
    let (back, consumed) = DnsQuery::decode(&wire).unwrap();
    assert_eq!(consumed, wire.len());
    assert_same_message(&m, &back);
}

#[test]
fn message_encode_starts_with_header_and_question() {
    let m = sample_message();
    let wire = m.encode().unwrap();
    assert_eq!(
        &wire[..12],
        &[0x12, 0x34, 0x81, 0x80, 0x00, 0x01, 0x00, 0x01, 0x00, 0x01, 0x00, 0x01]
    );
    assert_eq!(
        &wire[12..33],
        &[
            0x03, 0x77, 0x77, 0x77, 0x07, 0x65, 0x78, 0x61, 0x6d, 0x70, 0x6c, 0x65, 0x03, 0x63,
            0x6f, 0x6d, 0x00, 0x00, 0x01, 0x00, 0x01
        ]
    );
}

#[test]
fn trailing_bytes_stay_unconsumed_and_observable() {
    let m = sample_message();
    let mut wire = m.encode().unwrap();
    let real_len = wire.len();
    wire.extend_from_slice(&[0xde, 0xad, 0xbe]);
    let (back, consumed) = DnsQuery::decode(&wire).unwrap();
    assert_eq!(consumed, real_len);
    assert_eq!(wire.len() - consumed, 3);
    assert_same_message(&m, &back);
}

#[test]
fn truncated_message_is_rejected_wherever_it_is_cut() {
    let wire = sample_message().encode().unwrap();
    for cut in [0, 5, 11, 12, 20, 33, 40, wire.len() - 1] {
        assert_eq!(
            DnsQuery::decode(&wire[..cut]).unwrap_err(),
            DnsError::TruncatedInput
        );
    }
}

#[test]
fn query_with_empty_sections_is_truncated() {
    // A plain query message: header with qd_count=1 and nothing after the
    // question. The one-entry-per-section model runs out of bytes.
    let q = DnsQueryQuestion {
        q_name: b"www.example.com".to_vec(),
        q_type: DnsQueryType::A,
        q_class: DnsQueryClass::In,
    };
    let mut wire = vec![
        0x00, 0x00, 0x01, 0x00, 0x00, 0x01, 0x00, 0x00, 0x00, 0x00, 0x00, 0x00,
    ];
    wire.extend_from_slice(&q.encode().unwrap());
    assert_eq!(DnsQuery::decode(&wire).unwrap_err(), DnsError::TruncatedInput);
}

#[test]
fn compressed_answer_name_is_rejected_distinctly() {
    // A real-world response compresses the answer's name with a pointer
    // (0xc0 0x0c) back into the question; this codec rejects it.
    let hex: Vec<u8> = vec![
        0x00, 0x00, 0x81, 0x80, 0x00, 0x01, 0x00, 0x01, 0x00, 0x00, 0x00, 0x00, 0x03, 0x77, 0x77,
        0x77, 0x07, 0x65, 0x78, 0x61, 0x6d, 0x70, 0x6c, 0x65, 0x03, 0x63, 0x6f, 0x6d, 0x00, 0x00,
        0x01, 0x00, 0x01, 0xc0, 0x0c, 0x00, 0x01, 0x00, 0x01, 0x00, 0x00, 0x2f, 0x19, 0x00, 0x04,
        0x5d, 0xb8, 0xd8, 0x22,
    ];
    assert_eq!(
        DnsQuery::decode(&hex).unwrap_err(),
        DnsError::CompressionUnsupported
    );
}

#[test]
fn section_counts_other_than_one_each_are_reported() {
    let mut h = DnsQueryHeader {
        id: 0,
        flags: DnsQueryHeaderFlags(0),
        qd_count: 1,
        an_count: 1,
        ns_count: 1,
        ar_count: 1,
    };
    assert_eq!(section_counts_supported(&h), Ok(()));
    h.an_count = 2;
    assert_eq!(
        section_counts_supported(&h),
        Err(DnsError::UnknownSectionCount)
    );
    h.an_count = 1;
    h.ar_count = 0;
    assert_eq!(
        section_counts_supported(&h),
        Err(DnsError::UnknownSectionCount)
    );
}

#[test]
fn encode_error_surfaces_from_the_failing_section() {
    let mut m = sample_message();
    m.authority.name = vec![0x61; 256];
    assert_eq!(m.encode(), Err(DnsError::LabelTooLong));
}
