//! Primitive field parsing shared by the sub-codecs: big-endian 16-bit and
//! 32-bit integers, read at an offset into a byte buffer.

use vstd::prelude::*;

use crate::errors::DnsError;

verus! {

/// The high byte of a 16-bit value in network byte order.
pub open spec fn spec_u16_hi(x: u16) -> u8 {
    (x >> 8) as u8
}

/// The low byte of a 16-bit value in network byte order.
pub open spec fn spec_u16_lo(x: u16) -> u8 {
    (x & 0xff) as u8
}

/// The 16-bit value read big-endian from two bytes.
pub open spec fn spec_u16_of_bytes(b0: u8, b1: u8) -> u16 {
    ((b0 as u16) << 8) | (b1 as u16)
}

/// The two bytes of a 16-bit value in network byte order.
pub open spec fn spec_u16_bytes(x: u16) -> Seq<u8> {
    seq![spec_u16_hi(x), spec_u16_lo(x)]
}

/// Writing a 16-bit value big-endian and reading it back is the identity.
pub proof fn lemma_u16_bytes_roundtrip(x: u16)
    ensures
        spec_u16_of_bytes(spec_u16_hi(x), spec_u16_lo(x)) == x,
{
    assert(((((x >> 8) as u8) as u16) << 8) | (((x & 0xff) as u8) as u16) == x) by (bit_vector);
}

/// The four bytes of a 32-bit value in network byte order, highest first.
pub open spec fn spec_u32_byte(x: u32, k: int) -> u8 {
    if k == 0 {
        (x >> 24) as u8
    } else if k == 1 {
        ((x >> 16) & 0xff) as u8
    } else if k == 2 {
        ((x >> 8) & 0xff) as u8
    } else {
        (x & 0xff) as u8
    }
}

/// The 32-bit value read big-endian from four bytes.
pub open spec fn spec_u32_of_bytes(b0: u8, b1: u8, b2: u8, b3: u8) -> u32 {
    ((b0 as u32) << 24) | ((b1 as u32) << 16) | ((b2 as u32) << 8) | (b3 as u32)
}

/// The four bytes of a 32-bit value in network byte order.
pub open spec fn spec_u32_bytes(x: u32) -> Seq<u8> {
    seq![spec_u32_byte(x, 0), spec_u32_byte(x, 1), spec_u32_byte(x, 2), spec_u32_byte(x, 3)]
}

/// Writing a 32-bit value big-endian and reading it back is the identity.
pub proof fn lemma_u32_bytes_roundtrip(x: u32)
    ensures
        spec_u32_of_bytes(
            spec_u32_byte(x, 0),
            spec_u32_byte(x, 1),
            spec_u32_byte(x, 2),
            spec_u32_byte(x, 3),
        ) == x,
{
    assert((((x >> 24) as u8 as u32) << 24) | ((((x >> 16) & 0xff) as u8 as u32) << 16) | ((((x
        >> 8) & 0xff) as u8 as u32) << 8) | ((x & 0xff) as u8 as u32) == x) by (bit_vector);
}

/// Appends a 16-bit value to `out` as its two big-endian wire bytes.
pub fn push_u16(out: &mut Vec<u8>, x: u16)
    ensures
        final(out)@ == old(out)@ + spec_u16_bytes(x),
{
    out.push((x >> 8) as u8);
    out.push((x & 0xff) as u8);
    proof {
        assert(out@ =~= old(out)@ + spec_u16_bytes(x));
    }
}

/// Appends a 32-bit value to `out` as its four big-endian wire bytes.
pub fn push_u32(out: &mut Vec<u8>, x: u32)
    ensures
        final(out)@ == old(out)@ + spec_u32_bytes(x),
{
    out.push((x >> 24) as u8);
    out.push(((x >> 16) & 0xff) as u8);
    out.push(((x >> 8) & 0xff) as u8);
    out.push((x & 0xff) as u8);
    proof {
        assert(out@ =~= old(out)@ + spec_u32_bytes(x));
    }
}

/// Copies the bytes of `bytes[from..to]` into a fresh vector.
pub fn copy_byte_range(bytes: &[u8], from: usize, to: usize) -> (r: Vec<u8>)
    requires
        from <= to <= bytes@.len(),
    ensures
        r@ == bytes@.subrange(from as int, to as int),
{
    let mut out: Vec<u8> = Vec::new();
    proof {
        assert(out@ =~= bytes@.subrange(from as int, from as int));
    }
    let mut i = from;
    while i < to
        invariant
            from <= i <= to <= bytes@.len(),
            out@ == bytes@.subrange(from as int, i as int),
        decreases to - i,
    {
        let b = bytes[i];
        out.push(b);
        proof {
            assert(out@ =~= bytes@.subrange(from as int, i as int + 1));
        }
        i += 1;
    }
    out
}

/// Reads a big-endian 16-bit integer at `pos`, or reports truncation when
/// fewer than two bytes remain.
pub fn parse_u16(bytes: &[u8], pos: usize) -> (r: Result<u16, DnsError>)
    ensures
        pos + 2 <= bytes@.len() ==> r == Ok::<u16, DnsError>(
            spec_u16_of_bytes(bytes@[pos as int], bytes@[pos as int + 1]),
        ),
        pos + 2 > bytes@.len() ==> r == Err::<u16, DnsError>(DnsError::TruncatedInput),
{
    if bytes.len() >= 2 && pos <= bytes.len() - 2 {
        let b0 = bytes[pos];
        let b1 = bytes[pos + 1];
        Ok(((b0 as u16) << 8) | (b1 as u16))
    } else {
        Err(DnsError::TruncatedInput)
    }
}

/// Reads a big-endian 32-bit integer at `pos`, or reports truncation when
/// fewer than four bytes remain.
pub fn parse_u32(bytes: &[u8], pos: usize) -> (r: Result<u32, DnsError>)
    ensures
        pos + 4 <= bytes@.len() ==> r == Ok::<u32, DnsError>(
            spec_u32_of_bytes(
                bytes@[pos as int],
                bytes@[pos as int + 1],
                bytes@[pos as int + 2],
                bytes@[pos as int + 3],
            ),
        ),
        pos + 4 > bytes@.len() ==> r == Err::<u32, DnsError>(DnsError::TruncatedInput),
{
    if bytes.len() >= 4 && pos <= bytes.len() - 4 {
        let b0 = bytes[pos];
        let b1 = bytes[pos + 1];
        let b2 = bytes[pos + 2];
        let b3 = bytes[pos + 3];
        Ok(((b0 as u32) << 24) | ((b1 as u32) << 16) | ((b2 as u32) << 8) | (b3 as u32))
    } else {
        Err(DnsError::TruncatedInput)
    }
}

/// A 16-bit type code. The enumeration is closed and total: every
/// value 0-65535 maps to exactly one variant, with catch-all variants
/// for the unassigned, reserved and private-use ranges. A catch-all
/// covering more than one code carries the raw 16-bit value it was
/// decoded from, so unknown codes are preserved for round-tripping.
#[derive(Clone, Copy, Debug, PartialEq, Eq, Structural)]
pub enum DnsQueryType {
    /// Reserved
    _Resv0,
    /// a host address
    A,
    /// an authoritative name server
    Ns,
    /// 3-4: a mail destination / a mail forwarder (OBSOLETE - use MX)
    _Obsolete3To4(u16),
    /// the canonical name for an alias
    CName,
    /// marks the start of a zone of authority
    Soa,
    /// a mailbox domain name (EXPERIMENTAL)
    Mb,
    /// a mail group member (EXPERIMENTAL)
    Mg,
    /// a mail rename domain name (EXPERIMENTAL)
    Mr,
    /// a null RR (EXPERIMENTAL)
    Null,
    /// a well known service description
    Wks,
    /// a domain name pointer
    Ptr,
    /// host information
    HInfo,
    /// mailbox or mail list information
    MInfo,
    /// mail exchange
    Mx,
    /// text strings
    Txt,
    /// for Responsible Person
    Rp,
    /// for AFS Data Base location
    AfsDb,
    /// for X.25 PSDN address
    X25,
    /// for ISDN address
    Isdn,
    /// for Route Through
    Rt,
    /// for NSAP address, NSAP style A record
    Nsap,
    /// for domain name pointer, NSAP style
    NsapPtr,
    /// for security signature
    Sig,
    /// for security key
    Key,
    /// X.400 mail mapping information
    Px,
    /// Geographical Position
    GPos,
    /// IP6 Address
    Aaaa,
    /// Location Information
    Loc,
    /// Next Domain (OBSOLETE)
    _Obsolete30,
    /// Endpoint Identifier
    EId,
    /// Nimrod Locator
    NimLoc,
    /// Server Selection
    Srv,
    /// ATM Address
    AtmA,
    /// Naming Authority Pointer
    NaPtr,
    /// Key Exchanger
    Kx,
    /// CERT
    Cert,
    /// A6 (OBSOLETE - use AAAA)
    _Obsolete38,
    /// DNAME
    DName,
    /// SINK
    Sink,
    /// OPT
    Opt,
    /// APL
    Apl,
    /// Delegation Signer
    Ds,
    /// SSH Key Fingerprint
    SshFp,
    /// IPSec Key
    IpSecKey,
    /// DNSSEC signature
    RrSig,
    /// Next Secure record
    NSec,
    /// DNS Key record
    DnsKey,
    /// DHCP identifier
    DhcId,
    /// Next Secure record version 3
    NSec3,
    /// NSEC3 parameters
    NSec3Param,
    /// TLSA certificate association
    Tlsa,
    /// S/MIME cert association
    SMimeA,
    /// Unassigned
    _UnAssign54,
    /// Host Identity Protocol
    Hip,
    /// NINFO
    NInfo,
    /// RKey
    RKey,
    /// Trust Anchor LINK
    TaLink,
    /// Child DS
    Cds,
    /// DNSKEY(s) the Child wants reflected in DS
    CDnsKey,
    /// OpenPGP public key record
    OpenPgpKey,
    /// Child-to-Parent Synchronization
    CSync,
    /// message digest for DNS zone
    ZoneMd,
    /// 64-98: Unassigned
    _UnAssign64To98(u16),
    /// 99-248: codes this table does not break out
    _UnAssign99To248(u16),
    /// Transaction Key record
    TKey,
    /// Transaction Signature
    TSig,
    /// 251-255: codes this table does not break out
    _UnAssign251To255(u16),
    /// Uniform Resource Identifier
    Uri,
    /// Certification Authority Authorization
    Caa,
    /// Application Visibility and Control
    Avc,
    /// Digital Object Architecture
    DOa,
    /// Automatic Multicast Tunneling Relay
    AmtRelay,
    /// 261-32766: Unassigned
    _UnAssign261To32766(u16),
    /// Unassigned
    _UnAssign32767,
    /// DNSSEC Trust Authorities
    Ta,
    /// DNSSEC Lookaside Validation record
    Dlv,
    /// 32770-65279: Unassigned
    _UnAssign32770To65279(u16),
    /// 65280-65534: Private use
    _PrivUse(u16),
    /// Reserved
    _Resv65535,
}

/// The type variant a 16-bit wire value maps to; total by construction,
/// and a catch-all keeps the value itself.
pub open spec fn spec_type_of(v: u16) -> DnsQueryType {
    if v == 0 {
        DnsQueryType::_Resv0
    } else if v == 1 {
        DnsQueryType::A
    } else if v == 2 {
        DnsQueryType::Ns
    } else if v <= 4 {
        DnsQueryType::_Obsolete3To4(v)
    } else if v == 5 {
        DnsQueryType::CName
    } else if v == 6 {
        DnsQueryType::Soa
    } else if v == 7 {
        DnsQueryType::Mb
    } else if v == 8 {
        DnsQueryType::Mg
    } else if v == 9 {
        DnsQueryType::Mr
    } else if v == 10 {
        DnsQueryType::Null
    } else if v == 11 {
        DnsQueryType::Wks
    } else if v == 12 {
        DnsQueryType::Ptr
    } else if v == 13 {
        DnsQueryType::HInfo
    } else if v == 14 {
        DnsQueryType::MInfo
    } else if v == 15 {
        DnsQueryType::Mx
    } else if v == 16 {
        DnsQueryType::Txt
    } else if v == 17 {
        DnsQueryType::Rp
    } else if v == 18 {
        DnsQueryType::AfsDb
    } else if v == 19 {
        DnsQueryType::X25
    } else if v == 20 {
        DnsQueryType::Isdn
    } else if v == 21 {
        DnsQueryType::Rt
    } else if v == 22 {
        DnsQueryType::Nsap
    } else if v == 23 {
        DnsQueryType::NsapPtr
    } else if v == 24 {
        DnsQueryType::Sig
    } else if v == 25 {
        DnsQueryType::Key
    } else if v == 26 {
        DnsQueryType::Px
    } else if v == 27 {
        DnsQueryType::GPos
    } else if v == 28 {
        DnsQueryType::Aaaa
    } else if v == 29 {
        DnsQueryType::Loc
    } else if v == 30 {
        DnsQueryType::_Obsolete30
    } else if v == 31 {
        DnsQueryType::EId
    } else if v == 32 {
        DnsQueryType::NimLoc
    } else if v == 33 {
        DnsQueryType::Srv
    } else if v == 34 {
        DnsQueryType::AtmA
    } else if v == 35 {
        DnsQueryType::NaPtr
    } else if v == 36 {
        DnsQueryType::Kx
    } else if v == 37 {
        DnsQueryType::Cert
    } else if v == 38 {
        DnsQueryType::_Obsolete38
    } else if v == 39 {
        DnsQueryType::DName
    } else if v == 40 {
        DnsQueryType::Sink
    } else if v == 41 {
        DnsQueryType::Opt
    } else if v == 42 {
        DnsQueryType::Apl
    } else if v == 43 {
        DnsQueryType::Ds
    } else if v == 44 {
        DnsQueryType::SshFp
    } else if v == 45 {
        DnsQueryType::IpSecKey
    } else if v == 46 {
        DnsQueryType::RrSig
    } else if v == 47 {
        DnsQueryType::NSec
    } else if v == 48 {
        DnsQueryType::DnsKey
    } else if v == 49 {
        DnsQueryType::DhcId
    } else if v == 50 {
        DnsQueryType::NSec3
    } else if v == 51 {
        DnsQueryType::NSec3Param
    } else if v == 52 {
        DnsQueryType::Tlsa
    } else if v == 53 {
        DnsQueryType::SMimeA
    } else if v == 54 {
        DnsQueryType::_UnAssign54
    } else if v == 55 {
        DnsQueryType::Hip
    } else if v == 56 {
        DnsQueryType::NInfo
    } else if v == 57 {
        DnsQueryType::RKey
    } else if v == 58 {
        DnsQueryType::TaLink
    } else if v == 59 {
        DnsQueryType::Cds
    } else if v == 60 {
        DnsQueryType::CDnsKey
    } else if v == 61 {
        DnsQueryType::OpenPgpKey
    } else if v == 62 {
        DnsQueryType::CSync
    } else if v == 63 {
        DnsQueryType::ZoneMd
    } else if v <= 98 {
        DnsQueryType::_UnAssign64To98(v)
    } else if v <= 248 {
        DnsQueryType::_UnAssign99To248(v)
    } else if v == 249 {
        DnsQueryType::TKey
    } else if v == 250 {
        DnsQueryType::TSig
    } else if v <= 255 {
        DnsQueryType::_UnAssign251To255(v)
    } else if v == 256 {
        DnsQueryType::Uri
    } else if v == 257 {
        DnsQueryType::Caa
    } else if v == 258 {
        DnsQueryType::Avc
    } else if v == 259 {
        DnsQueryType::DOa
    } else if v == 260 {
        DnsQueryType::AmtRelay
    } else if v <= 32766 {
        DnsQueryType::_UnAssign261To32766(v)
    } else if v == 32767 {
        DnsQueryType::_UnAssign32767
    } else if v == 32768 {
        DnsQueryType::Ta
    } else if v == 32769 {
        DnsQueryType::Dlv
    } else if v <= 65279 {
        DnsQueryType::_UnAssign32770To65279(v)
    } else if v <= 65534 {
        DnsQueryType::_PrivUse(v)
    } else {
        DnsQueryType::_Resv65535
    }
}

/// The 16-bit wire value a type variant writes back: its own code, or
/// for a catch-all the stored code it was decoded from.
pub open spec fn spec_type_code(t: DnsQueryType) -> u16 {
    match t {
        DnsQueryType::_Resv0 => 0,
        DnsQueryType::A => 1,
        DnsQueryType::Ns => 2,
        DnsQueryType::_Obsolete3To4(c) => c,
        DnsQueryType::CName => 5,
        DnsQueryType::Soa => 6,
        DnsQueryType::Mb => 7,
        DnsQueryType::Mg => 8,
        DnsQueryType::Mr => 9,
        DnsQueryType::Null => 10,
        DnsQueryType::Wks => 11,
        DnsQueryType::Ptr => 12,
        DnsQueryType::HInfo => 13,
        DnsQueryType::MInfo => 14,
        DnsQueryType::Mx => 15,
        DnsQueryType::Txt => 16,
        DnsQueryType::Rp => 17,
        DnsQueryType::AfsDb => 18,
        DnsQueryType::X25 => 19,
        DnsQueryType::Isdn => 20,
        DnsQueryType::Rt => 21,
        DnsQueryType::Nsap => 22,
        DnsQueryType::NsapPtr => 23,
        DnsQueryType::Sig => 24,
        DnsQueryType::Key => 25,
        DnsQueryType::Px => 26,
        DnsQueryType::GPos => 27,
        DnsQueryType::Aaaa => 28,
        DnsQueryType::Loc => 29,
        DnsQueryType::_Obsolete30 => 30,
        DnsQueryType::EId => 31,
        DnsQueryType::NimLoc => 32,
        DnsQueryType::Srv => 33,
        DnsQueryType::AtmA => 34,
        DnsQueryType::NaPtr => 35,
        DnsQueryType::Kx => 36,
        DnsQueryType::Cert => 37,
        DnsQueryType::_Obsolete38 => 38,
        DnsQueryType::DName => 39,
        DnsQueryType::Sink => 40,
        DnsQueryType::Opt => 41,
        DnsQueryType::Apl => 42,
        DnsQueryType::Ds => 43,
        DnsQueryType::SshFp => 44,
        DnsQueryType::IpSecKey => 45,
        DnsQueryType::RrSig => 46,
        DnsQueryType::NSec => 47,
        DnsQueryType::DnsKey => 48,
        DnsQueryType::DhcId => 49,
        DnsQueryType::NSec3 => 50,
        DnsQueryType::NSec3Param => 51,
        DnsQueryType::Tlsa => 52,
        DnsQueryType::SMimeA => 53,
        DnsQueryType::_UnAssign54 => 54,
        DnsQueryType::Hip => 55,
        DnsQueryType::NInfo => 56,
        DnsQueryType::RKey => 57,
        DnsQueryType::TaLink => 58,
        DnsQueryType::Cds => 59,
        DnsQueryType::CDnsKey => 60,
        DnsQueryType::OpenPgpKey => 61,
        DnsQueryType::CSync => 62,
        DnsQueryType::ZoneMd => 63,
        DnsQueryType::_UnAssign64To98(c) => c,
        DnsQueryType::_UnAssign99To248(c) => c,
        DnsQueryType::TKey => 249,
        DnsQueryType::TSig => 250,
        DnsQueryType::_UnAssign251To255(c) => c,
        DnsQueryType::Uri => 256,
        DnsQueryType::Caa => 257,
        DnsQueryType::Avc => 258,
        DnsQueryType::DOa => 259,
        DnsQueryType::AmtRelay => 260,
        DnsQueryType::_UnAssign261To32766(c) => c,
        DnsQueryType::_UnAssign32767 => 32767,
        DnsQueryType::Ta => 32768,
        DnsQueryType::Dlv => 32769,
        DnsQueryType::_UnAssign32770To65279(c) => c,
        DnsQueryType::_PrivUse(c) => c,
        DnsQueryType::_Resv65535 => 65535,
    }
}

/// A well-formed type value: the code stored in a catch-all variant
/// lies in the range that variant covers. Every decoded value is
/// well-formed (see `lemma_type_code_identity`).
pub open spec fn spec_type_wf(t: DnsQueryType) -> bool {
    match t {
        DnsQueryType::_Obsolete3To4(c) => 3 <= c <= 4,
        DnsQueryType::_UnAssign64To98(c) => 64 <= c <= 98,
        DnsQueryType::_UnAssign99To248(c) => 99 <= c <= 248,
        DnsQueryType::_UnAssign251To255(c) => 251 <= c <= 255,
        DnsQueryType::_UnAssign261To32766(c) => 261 <= c <= 32766,
        DnsQueryType::_UnAssign32770To65279(c) => 32770 <= c <= 65279,
        DnsQueryType::_PrivUse(c) => 65280 <= c <= 65534,
        _ => true,
    }
}

impl DnsQueryType {
    /// Maps a raw 16-bit value to its variant: an explicit, exhaustive
    /// range-to-variant table, defined for every input.
    pub fn from_u16(v: u16) -> (r: DnsQueryType)
        ensures
            r == spec_type_of(v),
    {
        if v == 0 {
            DnsQueryType::_Resv0
        } else if v == 1 {
            DnsQueryType::A
        } else if v == 2 {
            DnsQueryType::Ns
        } else if v <= 4 {
            DnsQueryType::_Obsolete3To4(v)
        } else if v == 5 {
            DnsQueryType::CName
        } else if v == 6 {
            DnsQueryType::Soa
        } else if v == 7 {
            DnsQueryType::Mb
        } else if v == 8 {
            DnsQueryType::Mg
        } else if v == 9 {
            DnsQueryType::Mr
        } else if v == 10 {
            DnsQueryType::Null
        } else if v == 11 {
            DnsQueryType::Wks
        } else if v == 12 {
            DnsQueryType::Ptr
        } else if v == 13 {
            DnsQueryType::HInfo
        } else if v == 14 {
            DnsQueryType::MInfo
        } else if v == 15 {
            DnsQueryType::Mx
        } else if v == 16 {
            DnsQueryType::Txt
        } else if v == 17 {
            DnsQueryType::Rp
        } else if v == 18 {
            DnsQueryType::AfsDb
        } else if v == 19 {
            DnsQueryType::X25
        } else if v == 20 {
            DnsQueryType::Isdn
        } else if v == 21 {
            DnsQueryType::Rt
        } else if v == 22 {
            DnsQueryType::Nsap
        } else if v == 23 {
            DnsQueryType::NsapPtr
        } else if v == 24 {
            DnsQueryType::Sig
        } else if v == 25 {
            DnsQueryType::Key
        } else if v == 26 {
            DnsQueryType::Px
        } else if v == 27 {
            DnsQueryType::GPos
        } else if v == 28 {
            DnsQueryType::Aaaa
        } else if v == 29 {
            DnsQueryType::Loc
        } else if v == 30 {
            DnsQueryType::_Obsolete30
        } else if v == 31 {
            DnsQueryType::EId
        } else if v == 32 {
            DnsQueryType::NimLoc
        } else if v == 33 {
            DnsQueryType::Srv
        } else if v == 34 {
            DnsQueryType::AtmA
        } else if v == 35 {
            DnsQueryType::NaPtr
        } else if v == 36 {
            DnsQueryType::Kx
        } else if v == 37 {
            DnsQueryType::Cert
        } else if v == 38 {
            DnsQueryType::_Obsolete38
        } else if v == 39 {
            DnsQueryType::DName
        } else if v == 40 {
            DnsQueryType::Sink
        } else if v == 41 {
            DnsQueryType::Opt
        } else if v == 42 {
            DnsQueryType::Apl
        } else if v == 43 {
            DnsQueryType::Ds
        } else if v == 44 {
            DnsQueryType::SshFp
        } else if v == 45 {
            DnsQueryType::IpSecKey
        } else if v == 46 {
            DnsQueryType::RrSig
        } else if v == 47 {
            DnsQueryType::NSec
        } else if v == 48 {
            DnsQueryType::DnsKey
        } else if v == 49 {
            DnsQueryType::DhcId
        } else if v == 50 {
            DnsQueryType::NSec3
        } else if v == 51 {
            DnsQueryType::NSec3Param
        } else if v == 52 {
            DnsQueryType::Tlsa
        } else if v == 53 {
            DnsQueryType::SMimeA
        } else if v == 54 {
            DnsQueryType::_UnAssign54
        } else if v == 55 {
            DnsQueryType::Hip
        } else if v == 56 {
            DnsQueryType::NInfo
        } else if v == 57 {
            DnsQueryType::RKey
        } else if v == 58 {
            DnsQueryType::TaLink
        } else if v == 59 {
            DnsQueryType::Cds
        } else if v == 60 {
            DnsQueryType::CDnsKey
        } else if v == 61 {
            DnsQueryType::OpenPgpKey
        } else if v == 62 {
            DnsQueryType::CSync
        } else if v == 63 {
            DnsQueryType::ZoneMd
        } else if v <= 98 {
            DnsQueryType::_UnAssign64To98(v)
        } else if v <= 248 {
            DnsQueryType::_UnAssign99To248(v)
        } else if v == 249 {
            DnsQueryType::TKey
        } else if v == 250 {
            DnsQueryType::TSig
        } else if v <= 255 {
            DnsQueryType::_UnAssign251To255(v)
        } else if v == 256 {
            DnsQueryType::Uri
        } else if v == 257 {
            DnsQueryType::Caa
        } else if v == 258 {
            DnsQueryType::Avc
        } else if v == 259 {
            DnsQueryType::DOa
        } else if v == 260 {
            DnsQueryType::AmtRelay
        } else if v <= 32766 {
            DnsQueryType::_UnAssign261To32766(v)
        } else if v == 32767 {
            DnsQueryType::_UnAssign32767
        } else if v == 32768 {
            DnsQueryType::Ta
        } else if v == 32769 {
            DnsQueryType::Dlv
        } else if v <= 65279 {
            DnsQueryType::_UnAssign32770To65279(v)
        } else if v <= 65534 {
            DnsQueryType::_PrivUse(v)
        } else {
            DnsQueryType::_Resv65535
        }
    }

    /// The 16-bit value written back on the wire for this variant.
    pub fn to_u16(&self) -> (r: u16)
        ensures
            r == spec_type_code(*self),
    {
        match *self {
            DnsQueryType::_Resv0 => 0,
            DnsQueryType::A => 1,
            DnsQueryType::Ns => 2,
            DnsQueryType::_Obsolete3To4(c) => c,
            DnsQueryType::CName => 5,
            DnsQueryType::Soa => 6,
            DnsQueryType::Mb => 7,
            DnsQueryType::Mg => 8,
            DnsQueryType::Mr => 9,
            DnsQueryType::Null => 10,
            DnsQueryType::Wks => 11,
            DnsQueryType::Ptr => 12,
            DnsQueryType::HInfo => 13,
            DnsQueryType::MInfo => 14,
            DnsQueryType::Mx => 15,
            DnsQueryType::Txt => 16,
            DnsQueryType::Rp => 17,
            DnsQueryType::AfsDb => 18,
            DnsQueryType::X25 => 19,
            DnsQueryType::Isdn => 20,
            DnsQueryType::Rt => 21,
            DnsQueryType::Nsap => 22,
            DnsQueryType::NsapPtr => 23,
            DnsQueryType::Sig => 24,
            DnsQueryType::Key => 25,
            DnsQueryType::Px => 26,
            DnsQueryType::GPos => 27,
            DnsQueryType::Aaaa => 28,
            DnsQueryType::Loc => 29,
            DnsQueryType::_Obsolete30 => 30,
            DnsQueryType::EId => 31,
            DnsQueryType::NimLoc => 32,
            DnsQueryType::Srv => 33,
            DnsQueryType::AtmA => 34,
            DnsQueryType::NaPtr => 35,
            DnsQueryType::Kx => 36,
            DnsQueryType::Cert => 37,
            DnsQueryType::_Obsolete38 => 38,
            DnsQueryType::DName => 39,
            DnsQueryType::Sink => 40,
            DnsQueryType::Opt => 41,
            DnsQueryType::Apl => 42,
            DnsQueryType::Ds => 43,
            DnsQueryType::SshFp => 44,
            DnsQueryType::IpSecKey => 45,
            DnsQueryType::RrSig => 46,
            DnsQueryType::NSec => 47,
            DnsQueryType::DnsKey => 48,
            DnsQueryType::DhcId => 49,
            DnsQueryType::NSec3 => 50,
            DnsQueryType::NSec3Param => 51,
            DnsQueryType::Tlsa => 52,
            DnsQueryType::SMimeA => 53,
            DnsQueryType::_UnAssign54 => 54,
            DnsQueryType::Hip => 55,
            DnsQueryType::NInfo => 56,
            DnsQueryType::RKey => 57,
            DnsQueryType::TaLink => 58,
            DnsQueryType::Cds => 59,
            DnsQueryType::CDnsKey => 60,
            DnsQueryType::OpenPgpKey => 61,
            DnsQueryType::CSync => 62,
            DnsQueryType::ZoneMd => 63,
            DnsQueryType::_UnAssign64To98(c) => c,
            DnsQueryType::_UnAssign99To248(c) => c,
            DnsQueryType::TKey => 249,
            DnsQueryType::TSig => 250,
            DnsQueryType::_UnAssign251To255(c) => c,
            DnsQueryType::Uri => 256,
            DnsQueryType::Caa => 257,
            DnsQueryType::Avc => 258,
            DnsQueryType::DOa => 259,
            DnsQueryType::AmtRelay => 260,
            DnsQueryType::_UnAssign261To32766(c) => c,
            DnsQueryType::_UnAssign32767 => 32767,
            DnsQueryType::Ta => 32768,
            DnsQueryType::Dlv => 32769,
            DnsQueryType::_UnAssign32770To65279(c) => c,
            DnsQueryType::_PrivUse(c) => c,
            DnsQueryType::_Resv65535 => 65535,
        }
    }
}

/// Totality and preservation: every 16-bit type code maps to a defined
/// variant that writes the very same code back on the wire, and that
/// variant satisfies its range invariant.
pub proof fn lemma_type_code_identity(v: u16)
    ensures
        spec_type_code(spec_type_of(v)) == v,
        spec_type_wf(spec_type_of(v)),
{
}

/// Read back: converting a well-formed type variant to its code and
/// back is the identity.
pub proof fn lemma_type_code_round_trip(t: DnsQueryType)
    requires
        spec_type_wf(t),
    ensures
        spec_type_of(spec_type_code(t)) == t,
{
}

/// A 16-bit class code. The enumeration is closed and total: every
/// value 0-65535 maps to exactly one variant, with catch-all variants
/// for the unassigned, reserved and private-use ranges. A catch-all
/// covering more than one code carries the raw 16-bit value it was
/// decoded from, so unknown codes are preserved for round-tripping.
#[derive(Clone, Copy, Debug, PartialEq, Eq, Structural)]
pub enum DnsQueryClass {
    /// 0: Reserved
    _Resv0,
    /// 1: Internet (IN)
    In,
    /// 2: Unassigned
    _UnAssign2,
    /// 3: Chaos (CH)
    Ch,
    /// 4: Hesiod (HS)
    Hs,
    /// 5-253: Unassigned
    _UnAssign5To253(u16),
    /// 254: QCLASS NONE
    QClsNone,
    /// 255: QCLASS * (ANY)
    QClsAny,
    /// 256-65279: Unassigned
    _UnAssign256To65279(u16),
    /// 65280-65534: Reserved for Private Use
    _Priv65280To65534(u16),
    /// 65535: Reserved
    _Resv65535,
}

/// The class variant a 16-bit wire value maps to; total by construction,
/// and a catch-all keeps the value itself.
pub open spec fn spec_class_of(v: u16) -> DnsQueryClass {
    if v == 0 {
        DnsQueryClass::_Resv0
    } else if v == 1 {
        DnsQueryClass::In
    } else if v == 2 {
        DnsQueryClass::_UnAssign2
    } else if v == 3 {
        DnsQueryClass::Ch
    } else if v == 4 {
        DnsQueryClass::Hs
    } else if v <= 253 {
        DnsQueryClass::_UnAssign5To253(v)
    } else if v == 254 {
        DnsQueryClass::QClsNone
    } else if v == 255 {
        DnsQueryClass::QClsAny
    } else if v <= 65279 {
        DnsQueryClass::_UnAssign256To65279(v)
    } else if v <= 65534 {
        DnsQueryClass::_Priv65280To65534(v)
    } else {
        DnsQueryClass::_Resv65535
    }
}

/// The 16-bit wire value a class variant writes back: its own code, or
/// for a catch-all the stored code it was decoded from.
pub open spec fn spec_class_code(t: DnsQueryClass) -> u16 {
    match t {
        DnsQueryClass::_Resv0 => 0,
        DnsQueryClass::In => 1,
        DnsQueryClass::_UnAssign2 => 2,
        DnsQueryClass::Ch => 3,
        DnsQueryClass::Hs => 4,
        DnsQueryClass::_UnAssign5To253(c) => c,
        DnsQueryClass::QClsNone => 254,
        DnsQueryClass::QClsAny => 255,
        DnsQueryClass::_UnAssign256To65279(c) => c,
        DnsQueryClass::_Priv65280To65534(c) => c,
        DnsQueryClass::_Resv65535 => 65535,
    }
}

/// A well-formed class value: the code stored in a catch-all variant
/// lies in the range that variant covers. Every decoded value is
/// well-formed (see `lemma_class_code_identity`).
pub open spec fn spec_class_wf(t: DnsQueryClass) -> bool {
    match t {
        DnsQueryClass::_UnAssign5To253(c) => 5 <= c <= 253,
        DnsQueryClass::_UnAssign256To65279(c) => 256 <= c <= 65279,
        DnsQueryClass::_Priv65280To65534(c) => 65280 <= c <= 65534,
        _ => true,
    }
}

impl DnsQueryClass {
    /// Maps a raw 16-bit value to its variant: an explicit, exhaustive
    /// range-to-variant table, defined for every input.
    pub fn from_u16(v: u16) -> (r: DnsQueryClass)
        ensures
            r == spec_class_of(v),
    {
        if v == 0 {
            DnsQueryClass::_Resv0
        } else if v == 1 {
            DnsQueryClass::In
        } else if v == 2 {
            DnsQueryClass::_UnAssign2
        } else if v == 3 {
            DnsQueryClass::Ch
        } else if v == 4 {
            DnsQueryClass::Hs
        } else if v <= 253 {
            DnsQueryClass::_UnAssign5To253(v)
        } else if v == 254 {
            DnsQueryClass::QClsNone
        } else if v == 255 {
            DnsQueryClass::QClsAny
        } else if v <= 65279 {
            DnsQueryClass::_UnAssign256To65279(v)
        } else if v <= 65534 {
            DnsQueryClass::_Priv65280To65534(v)
        } else {
            DnsQueryClass::_Resv65535
        }
    }

    /// The 16-bit value written back on the wire for this variant.
    pub fn to_u16(&self) -> (r: u16)
        ensures
            r == spec_class_code(*self),
    {
        match *self {
            DnsQueryClass::_Resv0 => 0,
            DnsQueryClass::In => 1,
            DnsQueryClass::_UnAssign2 => 2,
            DnsQueryClass::Ch => 3,
            DnsQueryClass::Hs => 4,
            DnsQueryClass::_UnAssign5To253(c) => c,
            DnsQueryClass::QClsNone => 254,
            DnsQueryClass::QClsAny => 255,
            DnsQueryClass::_UnAssign256To65279(c) => c,
            DnsQueryClass::_Priv65280To65534(c) => c,
            DnsQueryClass::_Resv65535 => 65535,
        }
    }
}

/// Totality and preservation: every 16-bit class code maps to a defined
/// variant that writes the very same code back on the wire, and that
/// variant satisfies its range invariant.
pub proof fn lemma_class_code_identity(v: u16)
    ensures
        spec_class_code(spec_class_of(v)) == v,
        spec_class_wf(spec_class_of(v)),
{
}

/// Read back: converting a well-formed class variant to its code and
/// back is the identity.
pub proof fn lemma_class_code_round_trip(t: DnsQueryClass)
    requires
        spec_class_wf(t),
    ensures
        spec_class_of(spec_class_code(t)) == t,
{
}

} // verus!
