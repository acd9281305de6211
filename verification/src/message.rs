//! The message assembler: a whole DNS message as header, one question and
//! one answer, authority and additional record, in wire order.
//!
//! The codec models exactly one entry per section. Header counts
//! other than 1/1/1/1 are therefore not silently coerced: decoding still
//! proceeds one entry per section, and the consumed byte count is returned
//! so that callers observe any unconsumed trailing bytes; the separate
//! [`section_counts_supported`] check reports the unsupported counts
//! explicitly as [`DnsError::UnknownSectionCount`].

use vstd::prelude::*;

use crate::errors::DnsError;
use crate::header::{lemma_header_round_trip, spec_decode_header, spec_header_wire, DnsQueryHeader};
use crate::question::{
    lemma_question_round_trip_at, spec_decode_question, spec_question_encodable,
    spec_question_wire, spec_valid_question, DnsQueryQuestion, DnsQueryQuestionView,
};
use crate::resource_record::{
    lemma_rr_round_trip_at, spec_decode_rr, spec_rr_encode, spec_rr_wire, spec_valid_rr,
    DnsQueryResourceRecord, DnsQueryResourceRecordView,
};

verus! {

/// The mathematical shape of a whole message.
pub struct DnsQueryView {
    pub header: DnsQueryHeader,
    pub question: DnsQueryQuestionView,
    pub answer: DnsQueryResourceRecordView,
    pub authority: DnsQueryResourceRecordView,
    pub additional: DnsQueryResourceRecordView,
}

/// A whole DNS message: the header and exactly one entry per section.
#[derive(Clone, Debug)]
pub struct DnsQuery {
    pub header: DnsQueryHeader,
    pub question: DnsQueryQuestion,
    pub answer: DnsQueryResourceRecord,
    pub authority: DnsQueryResourceRecord,
    pub additional: DnsQueryResourceRecord,
}

impl View for DnsQuery {
    type V = DnsQueryView;

    open spec fn view(&self) -> DnsQueryView {
        DnsQueryView {
            header: self.header,
            question: self.question@,
            answer: self.answer@,
            authority: self.authority@,
            additional: self.additional@,
        }
    }
}

/// The wire form of a message: each sub-encode concatenated in header,
/// question, answer, authority, additional order.
pub open spec fn spec_message_wire(m: DnsQueryView) -> Seq<u8> {
    spec_header_wire(m.header) + spec_question_wire(m.question) + spec_rr_wire(m.answer)
        + spec_rr_wire(m.authority) + spec_rr_wire(m.additional)
}

/// Exactly what the message encoder returns: the wire form, or the first
/// failure of a sub-encoder in wire order.
pub open spec fn spec_message_encode(m: DnsQueryView) -> Result<Seq<u8>, DnsError> {
    if !spec_question_encodable(m.question) {
        Err(DnsError::LabelTooLong)
    } else {
        match spec_rr_encode(m.answer) {
            Err(e) => Err(e),
            Ok(_) => match spec_rr_encode(m.authority) {
                Err(e) => Err(e),
                Ok(_) => match spec_rr_encode(m.additional) {
                    Err(e) => Err(e),
                    Ok(_) => Ok(spec_message_wire(m)),
                },
            },
        }
    }
}

/// The message decoded from the front of `s`, together with how many bytes
/// were consumed; the sub-decoders run in wire order, each from the offset
/// the previous one reached.
pub open spec fn spec_decode_message(s: Seq<u8>) -> Result<(DnsQueryView, int), DnsError> {
    match spec_decode_header(s, 0) {
        Err(e) => Err(e),
        Ok(h) => match spec_decode_question(s, 12) {
            Err(e) => Err(e),
            Ok((q, p1)) => match spec_decode_rr(s, p1) {
                Err(e) => Err(e),
                Ok((a1, p2)) => match spec_decode_rr(s, p2) {
                    Err(e) => Err(e),
                    Ok((a2, p3)) => match spec_decode_rr(s, p3) {
                        Err(e) => Err(e),
                        Ok((a3, p4)) => Ok(
                            (
                                DnsQueryView {
                                    header: h,
                                    question: q,
                                    answer: a1,
                                    authority: a2,
                                    additional: a3,
                                },
                                p4,
                            ),
                        ),
                    },
                },
            },
        },
    }
}

impl DnsQuery {
    /// Decodes a whole message from the front of `bytes`: the header codec
    /// on the first 12 bytes, then the question and the three resource
    /// records in sequence, each advancing the offset. Returns the message
    /// and the number of bytes consumed; `bytes.len() - consumed` trailing
    /// bytes were left untouched, which is how header counts other than
    /// 1/1/1/1 become observable rather than an error. Fails with
    /// `TruncatedInput` the moment any sub-decode runs out of bytes.
    pub fn decode(bytes: &[u8]) -> (r: Result<(DnsQuery, usize), DnsError>)
        ensures
            (match spec_decode_message(bytes@) {
                Ok((m, consumed)) => r matches Ok(p) && p.0@ == m && p.1 == consumed,
                Err(e) => r == Err::<(DnsQuery, usize), DnsError>(e),
            }),
    {
        let header = match DnsQueryHeader::decode(bytes, 0) {
            Ok(v) => v,
            Err(e) => { return Err(e) },
        };
        let (question, p1) = match DnsQueryQuestion::decode(bytes, 12) {
            Ok(v) => v,
            Err(e) => { return Err(e) },
        };
        let (answer, p2) = match DnsQueryResourceRecord::decode(bytes, p1) {
            Ok(v) => v,
            Err(e) => { return Err(e) },
        };
        let (authority, p3) = match DnsQueryResourceRecord::decode(bytes, p2) {
            Ok(v) => v,
            Err(e) => { return Err(e) },
        };
        let (additional, p4) = match DnsQueryResourceRecord::decode(bytes, p3) {
            Ok(v) => v,
            Err(e) => { return Err(e) },
        };
        Ok((DnsQuery { header, question, answer, authority, additional }, p4))
    }

    /// Encodes the message as the concatenation of each sub-encode in
    /// header, question, answer, authority, additional order, failing with
    /// the first sub-encoder error in that order.
    pub fn encode(&self) -> (r: Result<Vec<u8>, DnsError>)
        ensures
            (match spec_message_encode(self@) {
                Ok(w) => r matches Ok(v) && v@ == w,
                Err(e) => r == Err::<Vec<u8>, DnsError>(e),
            }),
    {
        let mut out = self.header.encode();
        let mut qb = match self.question.encode() {
            Ok(v) => v,
            Err(e) => { return Err(e) },
        };
        out.append(&mut qb);
        let mut ab = match self.answer.encode() {
            Ok(v) => v,
            Err(e) => { return Err(e) },
        };
        out.append(&mut ab);
        let mut nb = match self.authority.encode() {
            Ok(v) => v,
            Err(e) => { return Err(e) },
        };
        out.append(&mut nb);
        let mut db = match self.additional.encode() {
            Ok(v) => v,
            Err(e) => { return Err(e) },
        };
        out.append(&mut db);
        proof {
            assert(out@ =~= spec_message_wire(self@));
        }
        Ok(out)
    }
}

/// Reports header section counts other than the single-entry-per-section
/// model this codec supports: `Ok` exactly when every count is 1, and
/// `UnknownSectionCount` otherwise.
pub fn section_counts_supported(h: &DnsQueryHeader) -> (r: Result<(), DnsError>)
    ensures
        (h.qd_count == 1 && h.an_count == 1 && h.ns_count == 1 && h.ar_count == 1) <==> r is Ok,
        !(h.qd_count == 1 && h.an_count == 1 && h.ns_count == 1 && h.ar_count == 1) ==> r == Err::<
            (),
            DnsError,
        >(DnsError::UnknownSectionCount),
{
    if h.qd_count == 1 && h.an_count == 1 && h.ns_count == 1 && h.ar_count == 1 {
        Ok(())
    } else {
        Err(DnsError::UnknownSectionCount)
    }
}

/// A message that survives a round trip: each section does.
pub open spec fn spec_valid_message(m: DnsQueryView) -> bool {
    &&& spec_valid_question(m.question)
    &&& spec_valid_rr(m.answer)
    &&& spec_valid_rr(m.authority)
    &&& spec_valid_rr(m.additional)
}

/// Round trip: decoding the encoding of any valid message yields that
/// message back, consuming the whole buffer.
#[verifier::rlimit(100)]
pub proof fn lemma_message_round_trip(m: DnsQueryView)
    requires
        spec_valid_message(m),
    ensures
        spec_decode_message(spec_message_wire(m)) == Ok::<(DnsQueryView, int), DnsError>(
            (m, spec_message_wire(m).len() as int),
        ),
{
    let w = spec_message_wire(m);
    let hw = spec_header_wire(m.header);
    let qw = spec_question_wire(m.question);
    let aw = spec_rr_wire(m.answer);
    let nw = spec_rr_wire(m.authority);
    let dw = spec_rr_wire(m.additional);
    assert(hw.len() == 12);
    let p1 = 12 + qw.len() as int;
    let p2 = p1 + aw.len() as int;
    let p3 = p2 + nw.len() as int;
    let p4 = p3 + dw.len() as int;
    assert(w.len() == p4);
    assert forall|i: int| 0 <= i < 12 implies w[i] == hw[i] by {}
    lemma_header_round_trip(m.header);
    assert(spec_decode_header(w, 0) == spec_decode_header(hw, 0));
    assert forall|i: int| 0 <= i < qw.len() implies w[12 + i] == qw[i] by {}
    assert(w.subrange(12, 12 + qw.len() as int) =~= qw);
    lemma_question_round_trip_at(m.question, w, 12);
    assert forall|i: int| 0 <= i < aw.len() implies w[p1 + i] == aw[i] by {}
    assert(w.subrange(p1, p1 + aw.len() as int) =~= aw);
    lemma_rr_round_trip_at(m.answer, w, p1);
    assert forall|i: int| 0 <= i < nw.len() implies w[p2 + i] == nw[i] by {}
    assert(w.subrange(p2, p2 + nw.len() as int) =~= nw);
    lemma_rr_round_trip_at(m.authority, w, p2);
    assert forall|i: int| 0 <= i < dw.len() implies w[p3 + i] == dw[i] by {}
    assert(w.subrange(p3, p3 + dw.len() as int) =~= dw);
    lemma_rr_round_trip_at(m.additional, w, p3);
}

} // verus!
