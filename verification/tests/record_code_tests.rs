use dns_query::errors::DnsError;
use dns_query::utils::{parse_u16, parse_u32, DnsQueryClass, DnsQueryType};

#[test]
fn type_conversion_is_total_and_preserves_the_code() {
    // Every 16-bit value maps to a defined variant, and the variant writes
    // the very same code back on the wire - unassigned, reserved and
    // private-use codes included.
    let mut v: u32 = 0;
    while v <= 0xffff {
        let t = DnsQueryType::from_u16(v as u16);
        assert_eq!(t.to_u16(), v as u16);
        assert_eq!(DnsQueryType::from_u16(t.to_u16()), t);
        v += 1;
    }
}

#[test]
fn class_conversion_is_total_and_preserves_the_code() {
    let mut v: u32 = 0;
    while v <= 0xffff {
        let c = DnsQueryClass::from_u16(v as u16);
        assert_eq!(c.to_u16(), v as u16);
        assert_eq!(DnsQueryClass::from_u16(c.to_u16()), c);
        v += 1;
    }
}

#[test]
fn well_known_type_codes() {
    assert_eq!(DnsQueryType::from_u16(1), DnsQueryType::A);
    assert_eq!(DnsQueryType::from_u16(2), DnsQueryType::Ns);
    assert_eq!(DnsQueryType::from_u16(5), DnsQueryType::CName);
    assert_eq!(DnsQueryType::from_u16(6), DnsQueryType::Soa);
    assert_eq!(DnsQueryType::from_u16(15), DnsQueryType::Mx);
    assert_eq!(DnsQueryType::from_u16(16), DnsQueryType::Txt);
    assert_eq!(DnsQueryType::from_u16(28), DnsQueryType::Aaaa);
    assert_eq!(DnsQueryType::from_u16(257), DnsQueryType::Caa);
    assert_eq!(DnsQueryType::A.to_u16(), 1);
    assert_eq!(DnsQueryType::CName.to_u16(), 5);
    assert_eq!(DnsQueryType::Aaaa.to_u16(), 28);
}

#[test]
fn catch_all_type_ranges_keep_the_raw_code() {
    assert_eq!(DnsQueryType::from_u16(64), DnsQueryType::_UnAssign64To98(64));
    assert_eq!(DnsQueryType::from_u16(98), DnsQueryType::_UnAssign64To98(98));
    assert_eq!(DnsQueryType::from_u16(100), DnsQueryType::_UnAssign99To248(100));
    assert_eq!(DnsQueryType::from_u16(32767), DnsQueryType::_UnAssign32767);
    assert_eq!(
        DnsQueryType::from_u16(40000),
        DnsQueryType::_UnAssign32770To65279(40000)
    );
    assert_eq!(DnsQueryType::from_u16(65300), DnsQueryType::_PrivUse(65300));
    assert_eq!(DnsQueryType::from_u16(65535), DnsQueryType::_Resv65535);
    assert_eq!(DnsQueryType::from_u16(0), DnsQueryType::_Resv0);
    assert_eq!(DnsQueryType::from_u16(3), DnsQueryType::_Obsolete3To4(3));
    assert_eq!(DnsQueryType::from_u16(38), DnsQueryType::_Obsolete38);
    // Two different codes of one range stay two different values.
    assert_ne!(DnsQueryType::from_u16(64), DnsQueryType::from_u16(98));
    assert_eq!(DnsQueryType::from_u16(64).to_u16(), 64);
    assert_eq!(DnsQueryType::from_u16(98).to_u16(), 98);
}

#[test]
fn well_known_class_codes() {
    assert_eq!(DnsQueryClass::from_u16(1), DnsQueryClass::In);
    assert_eq!(DnsQueryClass::from_u16(3), DnsQueryClass::Ch);
    assert_eq!(DnsQueryClass::from_u16(4), DnsQueryClass::Hs);
    assert_eq!(DnsQueryClass::from_u16(254), DnsQueryClass::QClsNone);
    assert_eq!(DnsQueryClass::from_u16(255), DnsQueryClass::QClsAny);
    assert_eq!(DnsQueryClass::from_u16(100), DnsQueryClass::_UnAssign5To253(100));
    assert_eq!(DnsQueryClass::_UnAssign5To253(100).to_u16(), 100);
    assert_eq!(DnsQueryClass::In.to_u16(), 1);
    assert_eq!(DnsQueryClass::QClsAny.to_u16(), 255);
}

#[test]
fn parse_u16_reads_big_endian() {
    let bytes = vec![0x12u8, 0x34, 0xab, 0xcd];
    assert_eq!(parse_u16(&bytes, 0), Ok(0x1234));
    assert_eq!(parse_u16(&bytes, 2), Ok(0xabcd));
    assert_eq!(parse_u16(&bytes, 1), Ok(0x34ab));
}

#[test]
fn parse_u16_reports_truncation() {
    let bytes = vec![0x12u8, 0x34];
    assert_eq!(parse_u16(&bytes, 1), Err(DnsError::TruncatedInput));
    assert_eq!(parse_u16(&bytes, 2), Err(DnsError::TruncatedInput));
    assert_eq!(parse_u16(&[], 0), Err(DnsError::TruncatedInput));
}

#[test]
fn parse_u32_reads_big_endian() {
    let bytes = vec![0x00u8, 0x00, 0x2f, 0x19, 0xff];
    assert_eq!(parse_u32(&bytes, 0), Ok(0x00002f19));
    assert_eq!(parse_u32(&bytes, 1), Ok(0x002f19ff));
}

#[test]
fn parse_u32_reports_truncation() {
    let bytes = vec![0x00u8, 0x00, 0x2f];
    assert_eq!(parse_u32(&bytes, 0), Err(DnsError::TruncatedInput));
    assert_eq!(parse_u32(&[], 0), Err(DnsError::TruncatedInput));
}
