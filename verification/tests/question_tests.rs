use dns_query::errors::DnsError;
use dns_query::question::DnsQueryQuestion;
use dns_query::utils::{DnsQueryClass, DnsQueryType};

fn www_example_com_question_wire() -> Vec<u8> {
    vec![
        0x03, 0x77, 0x77, 0x77, 0x07, 0x65, 0x78, 0x61, 0x6d, 0x70, 0x6c, 0x65, 0x03, 0x63, 0x6f,
        0x6d, 0x00, 0x00, 0x01, 0x00, 0x01,
    ]
}

#[test]
fn encodes_a_in_question_for_www_example_com() {
    let q = DnsQueryQuestion {
        q_name: b"www.example.com".to_vec(),
        q_type: DnsQueryType::A,
        q_class: DnsQueryClass::In,
    };
    assert_eq!(q.encode().unwrap(), www_example_com_question_wire());
}

#[test]
fn decodes_a_in_question_for_www_example_com() {
    let wire = www_example_com_question_wire();
    let (q, end) = DnsQueryQuestion::decode(&wire, 0).unwrap();
    assert_eq!(q.q_name, b"www.example.com".to_vec());
    assert_eq!(q.q_type, DnsQueryType::A);
    assert_eq!(q.q_class, DnsQueryClass::In);
    assert_eq!(end, wire.len());
}

#[test]
fn question_round_trips_through_the_wire() {
    let q = DnsQueryQuestion {
        q_name: b"mail.test".to_vec(),
        q_type: DnsQueryType::Mx,
        q_class: DnsQueryClass::Ch,
    };
    let wire = q.encode().unwrap();
    let (back, end) = DnsQueryQuestion::decode(&wire, 0).unwrap();
    assert_eq!(back.q_name, q.q_name);
    assert_eq!(back.q_type, q.q_type);
    assert_eq!(back.q_class, q.q_class);
    assert_eq!(end, wire.len());
}

#[test]
fn question_needs_four_bytes_after_the_name() {
    let wire = www_example_com_question_wire();
    // Cut into the class field: three bytes remain after the name.
    assert_eq!(
        DnsQueryQuestion::decode(&wire[..wire.len() - 1], 0).unwrap_err(),
        DnsError::TruncatedInput
    );
    // Cut into the name itself.
    assert_eq!(
        DnsQueryQuestion::decode(&wire[..3], 0).unwrap_err(),
        DnsError::TruncatedInput
    );
}

#[test]
fn question_with_overlong_label_fails_to_encode() {
    let q = DnsQueryQuestion {
        q_name: vec![0x61; 300],
        q_type: DnsQueryType::A,
        q_class: DnsQueryClass::In,
    };
    assert_eq!(q.encode(), Err(DnsError::LabelTooLong));
}
