//! The resource-record codec: one answer, authority or additional entry.
//!
//! ```text
//!  15 14 13 12 11 10  9  8  7  6  5  4  3  2  1  0
//! +--+--+--+--+--+--+--+--+--+--+--+--+--+--+--+--+
//! |                     name                      |
//! /                                               /
//! +--+--+--+--+--+--+--+--+--+--+--+--+--+--+--+--+
//! |                     type                      |
//! +--+--+--+--+--+--+--+--+--+--+--+--+--+--+--+--+
//! |                     class                     |
//! +--+--+--+--+--+--+--+--+--+--+--+--+--+--+--+--+
//! |                      ttl                      |
//! |                                               |
//! +--+--+--+--+--+--+--+--+--+--+--+--+--+--+--+--+
//! |                   rd_length                   |
//! +--+--+--+--+--+--+--+--+--+--+--+--+--+--+--+--+
//! |                    r_data                     |
//! /                                               /
//! +--+--+--+--+--+--+--+--+--+--+--+--+--+--+--+--+
//! ```
//!
//! The resource data is interpreted by `(class, type)`: a four-byte host
//! address for `(IN, A)`, a nested domain name for `(IN, CNAME)`, and the
//! raw bytes for every other combination. The declared `rd_length` is
//! authoritative for how many bytes are consumed, so callers never
//! desynchronise on data they do not interpret; on encoding, `rd_length` is
//! recomputed from the actual resource data, never trusted from a field.

use vstd::prelude::*;

use crate::errors::DnsError;
use crate::name::{
    decode_name, encode_name, lemma_decode_name_ok_range, lemma_name_round_trip_at,
    spec_decode_name, spec_name_encodable, spec_name_wire, spec_valid_name,
};
use crate::utils::{
    copy_byte_range, lemma_class_code_round_trip, lemma_type_code_round_trip,
    lemma_u16_bytes_roundtrip, lemma_u32_bytes_roundtrip, parse_u16, parse_u32, push_u16, push_u32,
    spec_class_code, spec_class_of, spec_class_wf, spec_type_code, spec_type_of, spec_type_wf,
    spec_u16_bytes, spec_u16_of_bytes, spec_u32_byte, spec_u32_bytes, spec_u32_of_bytes,
    DnsQueryClass, DnsQueryType,
};

verus! {

/// The mathematical shape of resource data.
pub enum DnsQueryResourceRecordRDataView {
    Ipv4Addr(u8, u8, u8, u8),
    Text(Seq<u8>),
    _Other(Seq<u8>),
}

/// The type-specific payload of a resource record, resolved from
/// `(class, type)` when decoding.
#[derive(Clone, Debug)]
pub enum DnsQueryResourceRecordRData {
    /// A four-byte host address; chosen for `(IN, A)` records.
    Ipv4Addr(u8, u8, u8, u8),
    /// A domain name in dotted text; chosen for `(IN, CNAME)` records.
    Text(Vec<u8>),
    /// The raw resource data, kept unmodified for round-tripping; chosen for
    /// every other `(class, type)` combination.
    _Other(Vec<u8>),
}

impl View for DnsQueryResourceRecordRData {
    type V = DnsQueryResourceRecordRDataView;

    open spec fn view(&self) -> DnsQueryResourceRecordRDataView {
        match self {
            DnsQueryResourceRecordRData::Ipv4Addr(a, b, c, d)
                => DnsQueryResourceRecordRDataView::Ipv4Addr(*a, *b, *c, *d),
            DnsQueryResourceRecordRData::Text(n) => DnsQueryResourceRecordRDataView::Text(n@),
            DnsQueryResourceRecordRData::_Other(v) => DnsQueryResourceRecordRDataView::_Other(v@),
        }
    }
}

/// The mathematical shape of a resource record.
pub struct DnsQueryResourceRecordView {
    pub name: Seq<u8>,
    pub type_: DnsQueryType,
    pub class: DnsQueryClass,
    pub ttl: u32,
    pub r_data: DnsQueryResourceRecordRDataView,
}

/// One answer, authority or additional entry. `rd_length` is not stored: it
/// is recomputed from the resource data on encoding, which keeps the output
/// self-consistent by construction.
#[derive(Clone, Debug)]
pub struct DnsQueryResourceRecord {
    pub name: Vec<u8>,
    pub type_: DnsQueryType,
    pub class: DnsQueryClass,
    pub ttl: u32,
    pub r_data: DnsQueryResourceRecordRData,
}

impl View for DnsQueryResourceRecord {
    type V = DnsQueryResourceRecordView;

    open spec fn view(&self) -> DnsQueryResourceRecordView {
        DnsQueryResourceRecordView {
            name: self.name@,
            type_: self.type_,
            class: self.class,
            ttl: self.ttl,
            r_data: self.r_data@,
        }
    }
}

/// The wire bytes of a resource data payload.
pub open spec fn spec_rdata_wire(d: DnsQueryResourceRecordRDataView) -> Seq<u8> {
    match d {
        DnsQueryResourceRecordRDataView::Ipv4Addr(a, b, c, dd) => seq![a, b, c, dd],
        DnsQueryResourceRecordRDataView::Text(n) => spec_name_wire(n),
        DnsQueryResourceRecordRDataView::_Other(bs) => bs,
    }
}

/// The wire form of a resource record: name, type, class, TTL, the
/// recomputed `rd_length`, then the resource data.
pub open spec fn spec_rr_wire(r: DnsQueryResourceRecordView) -> Seq<u8> {
    spec_name_wire(r.name) + spec_u16_bytes(spec_type_code(r.type_)) + spec_u16_bytes(
        spec_class_code(r.class),
    ) + spec_u32_bytes(r.ttl) + spec_u16_bytes(spec_rdata_wire(r.r_data).len() as u16)
        + spec_rdata_wire(r.r_data)
}

/// Exactly what the encoder returns: the record's wire form, or the first
/// failure met in encoding order - an overlong label in the record name,
/// then an overlong label in a CNAME payload, then resource data too large
/// for its 16-bit length field.
pub open spec fn spec_rr_encode(r: DnsQueryResourceRecordView) -> Result<Seq<u8>, DnsError> {
    if !spec_name_encodable(r.name) {
        Err(DnsError::LabelTooLong)
    } else if r.r_data matches DnsQueryResourceRecordRDataView::Text(n)
        && !spec_name_encodable(n) {
        Err(DnsError::LabelTooLong)
    } else if spec_rdata_wire(r.r_data).len() > 0xffff {
        Err(DnsError::MalformedRData)
    } else {
        Ok(spec_rr_wire(r))
    }
}

/// The resource record decoded at `pos`. The declared `rd_length` fixes the
/// consumed byte count for every interpretation that succeeds.
pub open spec fn spec_decode_rr(s: Seq<u8>, pos: int) -> Result<
    (DnsQueryResourceRecordView, int),
    DnsError,
> {
    match spec_decode_name(s, pos) {
        Ok((n, p)) => {
            if p + 10 <= s.len() {
                let t = spec_type_of(spec_u16_of_bytes(s[p], s[p + 1]));
                let c = spec_class_of(spec_u16_of_bytes(s[p + 2], s[p + 3]));
                let ttl = spec_u32_of_bytes(s[p + 4], s[p + 5], s[p + 6], s[p + 7]);
                let rdlen = spec_u16_of_bytes(s[p + 8], s[p + 9]) as int;
                let p2 = p + 10;
                if p2 + rdlen <= s.len() {
                    let end = p2 + rdlen;
                    if c is In && t is A {
                        if rdlen == 4 {
                            Ok(
                                (
                                    DnsQueryResourceRecordView {
                                        name: n,
                                        type_: t,
                                        class: c,
                                        ttl,
                                        r_data: DnsQueryResourceRecordRDataView::Ipv4Addr(
                                            s[p2],
                                            s[p2 + 1],
                                            s[p2 + 2],
                                            s[p2 + 3],
                                        ),
                                    },
                                    end,
                                ),
                            )
                        } else {
                            Err(DnsError::MalformedRData)
                        }
                    } else if c is In && t is CName {
                        match spec_decode_name(s.subrange(p2, end), 0) {
                            Ok((n2, _)) => Ok(
                                (
                                    DnsQueryResourceRecordView {
                                        name: n,
                                        type_: t,
                                        class: c,
                                        ttl,
                                        r_data: DnsQueryResourceRecordRDataView::Text(n2),
                                    },
                                    end,
                                ),
                            ),
                            Err(e) => Err(e),
                        }
                    } else {
                        Ok(
                            (
                                DnsQueryResourceRecordView {
                                    name: n,
                                    type_: t,
                                    class: c,
                                    ttl,
                                    r_data: DnsQueryResourceRecordRDataView::_Other(
                                        s.subrange(p2, end),
                                    ),
                                },
                                end,
                            ),
                        )
                    }
                } else {
                    Err(DnsError::TruncatedInput)
                }
            } else {
                Err(DnsError::TruncatedInput)
            }
        },
        Err(e) => Err(e),
    }
}

impl DnsQueryResourceRecord {
    /// Decodes one resource record at `pos`: the name codec for `name`, the
    /// fixed ten bytes of type, class, TTL and `rd_length`, then exactly
    /// `rd_length` bytes of resource data interpreted by `(class, type)`.
    /// Fails with `TruncatedInput` when the fixed fields or the declared
    /// resource data run past the buffer, and with `MalformedRData` on an
    /// `(IN, A)` record whose `rd_length` is not 4.
    pub fn decode(bytes: &[u8], pos: usize) -> (r: Result<
        (DnsQueryResourceRecord, usize),
        DnsError,
    >)
        ensures
            (match spec_decode_rr(bytes@, pos as int) {
                Ok((v, end)) => r matches Ok(p) && p.0@ == v && p.1 == end,
                Err(e) => r == Err::<(DnsQueryResourceRecord, usize), DnsError>(e),
            }),
    {
        let (name, p) = match decode_name(bytes, pos) {
            Ok(v) => v,
            Err(e) => { return Err(e) },
        };
        proof {
            lemma_decode_name_ok_range(bytes@, pos as int);
        }
        if bytes.len() - p < 10 {
            return Err(DnsError::TruncatedInput);
        }
        let traw = match parse_u16(bytes, p) {
            Ok(v) => v,
            Err(e) => { return Err(e) },
        };
        let craw = match parse_u16(bytes, p + 2) {
            Ok(v) => v,
            Err(e) => { return Err(e) },
        };
        let ttl = match parse_u32(bytes, p + 4) {
            Ok(v) => v,
            Err(e) => { return Err(e) },
        };
        let rd_length = match parse_u16(bytes, p + 8) {
            Ok(v) => v,
            Err(e) => { return Err(e) },
        };
        let p2 = p + 10;
        if (rd_length as usize) > bytes.len() - p2 {
            return Err(DnsError::TruncatedInput);
        }
        let end = p2 + rd_length as usize;
        let type_ = DnsQueryType::from_u16(traw);
        let class = DnsQueryClass::from_u16(craw);
        let r_data = (if class == DnsQueryClass::In && type_ == DnsQueryType::A {
            if rd_length != 4 {
                return Err(DnsError::MalformedRData);
            }
            DnsQueryResourceRecordRData::Ipv4Addr(
                bytes[p2],
                bytes[p2 + 1],
                bytes[p2 + 2],
                bytes[p2 + 3],
            )
        } else if class == DnsQueryClass::In && type_ == DnsQueryType::CName {
            let sub = &bytes[p2..end];
            match decode_name(sub, 0) {
                Ok((n2, _)) => DnsQueryResourceRecordRData::Text(n2),
                Err(e) => { return Err(e) },
            }
        } else {
            DnsQueryResourceRecordRData::_Other(copy_byte_range(bytes, p2, end))
        });
        Ok((DnsQueryResourceRecord { name, type_, class, ttl, r_data }, end))
    }

    /// Encodes the resource record as its wire bytes, recomputing
    /// `rd_length` from the actual resource data. Fails with `LabelTooLong`
    /// exactly when a label of a name exceeds 255 bytes, and with
    /// `MalformedRData` when the resource data cannot fit a 16-bit length.
    pub fn encode(&self) -> (r: Result<Vec<u8>, DnsError>)
        ensures
            (match spec_rr_encode(self@) {
                Ok(w) => r matches Ok(v) && v@ == w,
                Err(e) => r == Err::<Vec<u8>, DnsError>(e),
            }),
    {
        let mut out = match encode_name(self.name.as_slice()) {
            Ok(v) => v,
            Err(e) => { return Err(e) },
        };
        push_u16(&mut out, self.type_.to_u16());
        push_u16(&mut out, self.class.to_u16());
        push_u32(&mut out, self.ttl);
        let mut rdata: Vec<u8> = (match &self.r_data {
            DnsQueryResourceRecordRData::Ipv4Addr(a, b, c, d) => {
                let mut v: Vec<u8> = Vec::new();
                v.push(*a);
                v.push(*b);
                v.push(*c);
                v.push(*d);
                proof {
                    assert(v@ =~= spec_rdata_wire(self.r_data@));
                }
                v
            },
            DnsQueryResourceRecordRData::Text(n) => {
                match encode_name(n.as_slice()) {
                    Ok(v) => v,
                    Err(e) => { return Err(e) },
                }
            },
            DnsQueryResourceRecordRData::_Other(v) => {
                let c = copy_byte_range(v.as_slice(), 0, v.len());
                proof {
                    assert(c@ =~= v@);
                }
                c
            },
        });
        if rdata.len() > 0xffff {
            return Err(DnsError::MalformedRData);
        }
        push_u16(&mut out, rdata.len() as u16);
        out.append(&mut rdata);
        proof {
            assert(out@ =~= spec_rr_wire(self@));
        }
        Ok(out)
    }
}

/// A resource record that survives a round trip: its name is valid, its
/// type and class values are well-formed (a catch-all carries a code inside
/// its own range, as every decoded value does), its resource data fits a
/// 16-bit length, and the payload variant is the one its `(class, type)`
/// decodes to - a host address for `(IN, A)`, a valid name for
/// `(IN, CNAME)`, raw bytes otherwise.
pub open spec fn spec_valid_rr(r: DnsQueryResourceRecordView) -> bool {
    &&& spec_valid_name(r.name)
    &&& spec_type_wf(r.type_)
    &&& spec_class_wf(r.class)
    &&& spec_rdata_wire(r.r_data).len() <= 0xffff
    &&& (if r.class is In && r.type_ is A {
        r.r_data is Ipv4Addr
    } else if r.class is In && r.type_ is CName {
        r.r_data matches DnsQueryResourceRecordRDataView::Text(n) && spec_valid_name(n)
    } else {
        r.r_data is _Other
    })
}

/// Round trip for a resource record embedded in a larger buffer: decoding
/// at the start of the wire form of a valid record yields the record back
/// and consumes exactly its wire form.
pub proof fn lemma_rr_round_trip_at(r: DnsQueryResourceRecordView, s: Seq<u8>, pos: int)
    requires
        spec_valid_rr(r),
        0 <= pos,
        pos + spec_rr_wire(r).len() <= s.len(),
        s.subrange(pos, pos + spec_rr_wire(r).len() as int) == spec_rr_wire(r),
    ensures
        spec_decode_rr(s, pos) == Ok::<(DnsQueryResourceRecordView, int), DnsError>(
            (r, pos + spec_rr_wire(r).len()),
        ),
{
    let w = spec_rr_wire(r);
    let nw = spec_name_wire(r.name);
    let tb = spec_u16_bytes(spec_type_code(r.type_));
    let cb = spec_u16_bytes(spec_class_code(r.class));
    let ttlb = spec_u32_bytes(r.ttl);
    let db = spec_rdata_wire(r.r_data);
    let lb = spec_u16_bytes(db.len() as u16);
    let m = nw.len() as int;
    assert(w =~= nw + (tb + (cb + (ttlb + (lb + db)))));
    assert forall|i: int| 0 <= i < w.len() implies s[pos + i] == w[i] by {
        assert(s.subrange(pos, pos + w.len() as int)[i] == s[pos + i]);
    }
    assert(s.subrange(pos, pos + nw.len() as int) =~= nw);
    lemma_name_round_trip_at(r.name, s, pos);
    let p = pos + m;
    assert(s[pos + m] == w[m]);
    assert(s[pos + (m + 1)] == w[m + 1]);
    assert(s[pos + (m + 2)] == w[m + 2]);
    assert(s[pos + (m + 3)] == w[m + 3]);
    assert(s[pos + (m + 4)] == w[m + 4]);
    assert(s[pos + (m + 5)] == w[m + 5]);
    assert(s[pos + (m + 6)] == w[m + 6]);
    assert(s[pos + (m + 7)] == w[m + 7]);
    assert(s[pos + (m + 8)] == w[m + 8]);
    assert(s[pos + (m + 9)] == w[m + 9]);
    assert(s[p] == tb[0] && s[p + 1] == tb[1]);
    assert(s[p + 2] == cb[0] && s[p + 3] == cb[1]);
    assert(s[p + 4] == ttlb[0] && s[p + 5] == ttlb[1] && s[p + 6] == ttlb[2] && s[p + 7]
        == ttlb[3]);
    assert(s[p + 8] == lb[0] && s[p + 9] == lb[1]);
    lemma_u16_bytes_roundtrip(spec_type_code(r.type_));
    lemma_u16_bytes_roundtrip(spec_class_code(r.class));
    lemma_type_code_round_trip(r.type_);
    lemma_class_code_round_trip(r.class);
    lemma_u32_bytes_roundtrip(r.ttl);
    assert(ttlb[0] == spec_u32_byte(r.ttl, 0) && ttlb[1] == spec_u32_byte(r.ttl, 1) && ttlb[2]
        == spec_u32_byte(r.ttl, 2) && ttlb[3] == spec_u32_byte(r.ttl, 3));
    lemma_u16_bytes_roundtrip(db.len() as u16);
    let p2 = p + 10;
    let end = p2 + db.len() as int;
    assert(end == pos + w.len());
    assert forall|i: int| 0 <= i < db.len() implies s[p2 + i] == db[i] by {
        assert(s[pos + (m + 10 + i)] == w[m + 10 + i]);
    }
    assert(s.subrange(p2, end) =~= db);
    if r.class is In && r.type_ is A {
        assert(db.len() == 4);
        assert(s[p2] == db[0] && s[p2 + 1] == db[1] && s[p2 + 2] == db[2] && s[p2 + 3] == db[3]);
        assert(s[pos + (m + 10)] == w[m + 10]);
        assert(s[pos + (m + 10 + 1)] == w[m + 10 + 1]);
        assert(s[pos + (m + 10 + 2)] == w[m + 10 + 2]);
        assert(s[pos + (m + 10 + 3)] == w[m + 10 + 3]);
    } else if r.class is In && r.type_ is CName {
        let n2 = r.r_data->Text_0;
        assert(db == spec_name_wire(n2));
        let sub = s.subrange(p2, end);
        assert(sub.subrange(0, sub.len() as int) =~= sub);
        lemma_name_round_trip_at(n2, sub, 0);
    } else {
        assert(db == r.r_data->_Other_0);
    }
}

/// Round trip: decoding the encoding of any valid resource record yields
/// that record back, consuming the whole buffer.
pub proof fn lemma_rr_round_trip(r: DnsQueryResourceRecordView)
    requires
        spec_valid_rr(r),
    ensures
        spec_decode_rr(spec_rr_wire(r), 0) == Ok::<(DnsQueryResourceRecordView, int), DnsError>(
            (r, spec_rr_wire(r).len() as int),
        ),
{
    let w = spec_rr_wire(r);
    assert(w.subrange(0, w.len() as int) =~= w);
    lemma_rr_round_trip_at(r, w, 0);
}

} // verus!
