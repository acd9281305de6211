use dns_query::errors::DnsError;
use dns_query::header::{
    DnsQueryHeader, DnsQueryHeaderFlags, DnsQueryHeaderFlagsAa, DnsQueryHeaderFlagsOpcode,
    DnsQueryHeaderFlagsQr, DnsQueryHeaderFlagsRa, DnsQueryHeaderFlagsRcode, DnsQueryHeaderFlagsRd,
    DnsQueryHeaderFlagsTc,
};

fn response_header_bytes() -> Vec<u8> {
    vec![0x00, 0x00, 0x81, 0x80, 0x00, 0x01, 0x00, 0x01, 0x00, 0x00, 0x00, 0x00]
}

#[test]
fn decodes_standard_response_header() {
    let bytes = response_header_bytes();
    let h = DnsQueryHeader::decode(&bytes, 0).unwrap();
    assert_eq!(h.id, 0);
    assert_eq!(h.flags.qr(), DnsQueryHeaderFlagsQr::Response);
    assert_eq!(h.flags.op_code(), DnsQueryHeaderFlagsOpcode::StdQuery);
    assert_eq!(h.flags.r_code(), DnsQueryHeaderFlagsRcode::NoErr);
    assert_eq!(h.qd_count, 1);
    assert_eq!(h.an_count, 1);
    assert_eq!(h.ns_count, 0);
    assert_eq!(h.ar_count, 0);
}

#[test]
fn flag_accessors_on_response_word() {
    // 0x8180: QR=1, OPCODE=0, AA=0, TC=0, RD=1, RA=1, Z=0, RCODE=0.
    let flags = DnsQueryHeaderFlags(0x8180);
    assert_eq!(flags.qr(), DnsQueryHeaderFlagsQr::Response);
    assert_eq!(flags.op_code(), DnsQueryHeaderFlagsOpcode::StdQuery);
    assert_eq!(flags.aa(), DnsQueryHeaderFlagsAa::NonAuthAns);
    assert_eq!(flags.tc(), DnsQueryHeaderFlagsTc::NonTrunc);
    assert_eq!(flags.rd(), DnsQueryHeaderFlagsRd::Recur);
    assert_eq!(flags.ra(), DnsQueryHeaderFlagsRa::Available);
    assert_eq!(flags.r_code(), DnsQueryHeaderFlagsRcode::NoErr);
}

#[test]
fn every_flags_word_maps_every_sub_field() {
    // Accessors are total: no 16-bit pattern is rejected or panics.
    let mut w: u32 = 0;
    while w <= 0xffff {
        let flags = DnsQueryHeaderFlags(w as u16);
        let _ = flags.qr();
        let _ = flags.op_code();
        let _ = flags.aa();
        let _ = flags.tc();
        let _ = flags.rd();
        let _ = flags.ra();
        let _ = flags.r_code();
        w += 1;
    }
}

#[test]
fn qr_mut_leaves_other_fields_alone() {
    let mut flags = DnsQueryHeaderFlags(0xffff);
    flags.qr_mut(&DnsQueryHeaderFlagsQr::Query);
    assert_eq!(flags.qr(), DnsQueryHeaderFlagsQr::Query);
    assert_eq!(flags.op_code(), DnsQueryHeaderFlagsOpcode::_Resv7To15);
    assert_eq!(flags.aa(), DnsQueryHeaderFlagsAa::AuthAns);
    assert_eq!(flags.tc(), DnsQueryHeaderFlagsTc::Trunc);
    assert_eq!(flags.rd(), DnsQueryHeaderFlagsRd::Recur);
    assert_eq!(flags.ra(), DnsQueryHeaderFlagsRa::Available);
    assert_eq!(flags.r_code(), DnsQueryHeaderFlagsRcode::_Resv11To15);
    assert_eq!(flags.0, 0x7fff);
}

#[test]
fn op_code_mut_leaves_other_fields_alone() {
    let mut flags = DnsQueryHeaderFlags(0x0000);
    flags.op_code_mut(&DnsQueryHeaderFlagsOpcode::Upd);
    assert_eq!(flags.op_code(), DnsQueryHeaderFlagsOpcode::Upd);
    assert_eq!(flags.qr(), DnsQueryHeaderFlagsQr::Query);
    assert_eq!(flags.aa(), DnsQueryHeaderFlagsAa::NonAuthAns);
    assert_eq!(flags.tc(), DnsQueryHeaderFlagsTc::NonTrunc);
    assert_eq!(flags.rd(), DnsQueryHeaderFlagsRd::NotRecur);
    assert_eq!(flags.ra(), DnsQueryHeaderFlagsRa::NotAvailable);
    assert_eq!(flags.r_code(), DnsQueryHeaderFlagsRcode::NoErr);
    assert_eq!(flags.0, 5 << 11);
}

#[test]
fn tc_rd_ra_mut_leave_other_fields_alone() {
    let mut flags = DnsQueryHeaderFlags(0x8180);
    flags.tc_mut(&DnsQueryHeaderFlagsTc::Trunc);
    assert_eq!(flags.tc(), DnsQueryHeaderFlagsTc::Trunc);
    assert_eq!(flags.0, 0x8380);
    flags.rd_mut(&DnsQueryHeaderFlagsRd::NotRecur);
    assert_eq!(flags.rd(), DnsQueryHeaderFlagsRd::NotRecur);
    assert_eq!(flags.0, 0x8280);
    flags.ra_mut(&DnsQueryHeaderFlagsRa::NotAvailable);
    assert_eq!(flags.ra(), DnsQueryHeaderFlagsRa::NotAvailable);
    assert_eq!(flags.0, 0x8200);
    // The fields the three mutators did not touch survive throughout.
    assert_eq!(flags.qr(), DnsQueryHeaderFlagsQr::Response);
    assert_eq!(flags.op_code(), DnsQueryHeaderFlagsOpcode::StdQuery);
    assert_eq!(flags.r_code(), DnsQueryHeaderFlagsRcode::NoErr);
}

#[test]
fn header_encode_decode_round_trip() {
    let h = DnsQueryHeader {
        id: 0xbeef,
        flags: DnsQueryHeaderFlags(0x8183),
        qd_count: 1,
        an_count: 2,
        ns_count: 3,
        ar_count: 4,
    };
    let bytes = h.encode();
    assert_eq!(
        bytes,
        vec![0xbe, 0xef, 0x81, 0x83, 0x00, 0x01, 0x00, 0x02, 0x00, 0x03, 0x00, 0x04]
    );
    let h2 = DnsQueryHeader::decode(&bytes, 0).unwrap();
    assert_eq!(h, h2);
}

#[test]
fn short_header_is_truncated() {
    let bytes = response_header_bytes();
    assert_eq!(
        DnsQueryHeader::decode(&bytes[..11], 0),
        Err(DnsError::TruncatedInput)
    );
    assert_eq!(DnsQueryHeader::decode(&[], 0), Err(DnsError::TruncatedInput));
    // Decoding at an offset needs 12 bytes from there.
    assert_eq!(
        DnsQueryHeader::decode(&bytes, 1),
        Err(DnsError::TruncatedInput)
    );
}
