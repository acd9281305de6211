//! The question codec: one question entry, a domain name followed by a
//! 16-bit type and a 16-bit class, both big-endian.
//!
//! ```text
//!  15 14 13 12 11 10  9  8  7  6  5  4  3  2  1  0
//! +--+--+--+--+--+--+--+--+--+--+--+--+--+--+--+--+
//! |                                               |
//! /                    q_name                     /
//! /                                               /
//! +--+--+--+--+--+--+--+--+--+--+--+--+--+--+--+--+
//! |                    q_type                     |
//! +--+--+--+--+--+--+--+--+--+--+--+--+--+--+--+--+
//! |                    q_class                    |
//! +--+--+--+--+--+--+--+--+--+--+--+--+--+--+--+--+
//! ```

use vstd::prelude::*;

use crate::errors::DnsError;
use crate::name::{
    decode_name, encode_name, lemma_decode_name_ok_range, lemma_name_round_trip_at,
    spec_decode_name, spec_name_encodable, spec_name_wire, spec_valid_name,
};
use crate::utils::{
    lemma_class_code_round_trip, lemma_type_code_round_trip, lemma_u16_bytes_roundtrip, parse_u16,
    push_u16, spec_class_code, spec_class_of, spec_class_wf, spec_type_code, spec_type_of,
    spec_type_wf, spec_u16_bytes, spec_u16_of_bytes, DnsQueryClass, DnsQueryType,
};

verus! {

/// The mathematical shape of a question: the dotted name as a byte sequence
/// together with its type and class codes.
pub struct DnsQueryQuestionView {
    pub q_name: Seq<u8>,
    pub q_type: DnsQueryType,
    pub q_class: DnsQueryClass,
}

/// One question entry: a queried name with its record type and class. The
/// name is held as dotted text (`www.example.com`).
#[derive(Clone, Debug)]
pub struct DnsQueryQuestion {
    pub q_name: Vec<u8>,
    pub q_type: DnsQueryType,
    pub q_class: DnsQueryClass,
}

impl View for DnsQueryQuestion {
    type V = DnsQueryQuestionView;

    open spec fn view(&self) -> DnsQueryQuestionView {
        DnsQueryQuestionView { q_name: self.q_name@, q_type: self.q_type, q_class: self.q_class }
    }
}

/// The wire form of a question: the name's label sequence, then the type and
/// class codes, each as two big-endian bytes.
pub open spec fn spec_question_wire(q: DnsQueryQuestionView) -> Seq<u8> {
    spec_name_wire(q.q_name) + spec_u16_bytes(spec_type_code(q.q_type)) + spec_u16_bytes(
        spec_class_code(q.q_class),
    )
}

/// The encoder succeeds on a question exactly when its name encodes.
pub open spec fn spec_question_encodable(q: DnsQueryQuestionView) -> bool {
    spec_name_encodable(q.q_name)
}

/// A question that survives a round trip: its name does, and its type and
/// class values are well-formed (a catch-all carries a code inside its own
/// range, as every decoded value does).
pub open spec fn spec_valid_question(q: DnsQueryQuestionView) -> bool {
    &&& spec_valid_name(q.q_name)
    &&& spec_type_wf(q.q_type)
    &&& spec_class_wf(q.q_class)
}

/// The question decoded at `pos`: a name, then four bytes of type and class.
pub open spec fn spec_decode_question(s: Seq<u8>, pos: int) -> Result<
    (DnsQueryQuestionView, int),
    DnsError,
> {
    match spec_decode_name(s, pos) {
        Ok((n, p)) => {
            if p + 4 <= s.len() {
                Ok(
                    (
                        DnsQueryQuestionView {
                            q_name: n,
                            q_type: spec_type_of(spec_u16_of_bytes(s[p], s[p + 1])),
                            q_class: spec_class_of(spec_u16_of_bytes(s[p + 2], s[p + 3])),
                        },
                        p + 4,
                    ),
                )
            } else {
                Err(DnsError::TruncatedInput)
            }
        },
        Err(e) => Err(e),
    }
}

impl DnsQueryQuestion {
    /// Decodes one question at `pos`: the name codec for `q_name`, then two
    /// big-endian 16-bit reads converted through the total enumeration
    /// mappings. Fails with `TruncatedInput` when fewer than 4 bytes remain
    /// after the name.
    pub fn decode(bytes: &[u8], pos: usize) -> (r: Result<(DnsQueryQuestion, usize), DnsError>)
        ensures
            (match spec_decode_question(bytes@, pos as int) {
                Ok((q, end)) => r matches Ok(p) && p.0@ == q && p.1 == end,
                Err(e) => r == Err::<(DnsQueryQuestion, usize), DnsError>(e),
            }),
    {
        let (q_name, p) = match decode_name(bytes, pos) {
            Ok(v) => v,
            Err(e) => { return Err(e) },
        };
        proof {
            lemma_decode_name_ok_range(bytes@, pos as int);
        }
        if bytes.len() - p < 4 {
            return Err(DnsError::TruncatedInput);
        }
        let t = match parse_u16(bytes, p) {
            Ok(v) => v,
            Err(e) => { return Err(e) },
        };
        let c = match parse_u16(bytes, p + 2) {
            Ok(v) => v,
            Err(e) => { return Err(e) },
        };
        Ok(
            (
                DnsQueryQuestion {
                    q_name,
                    q_type: DnsQueryType::from_u16(t),
                    q_class: DnsQueryClass::from_u16(c),
                },
                p + 4,
            ),
        )
    }

    /// Encodes the question as its wire bytes; fails with `LabelTooLong`
    /// exactly when a label of the name exceeds 255 bytes.
    pub fn encode(&self) -> (r: Result<Vec<u8>, DnsError>)
        ensures
            spec_question_encodable(self@) ==> (r matches Ok(v) && v@ == spec_question_wire(
                self@,
            )),
            !spec_question_encodable(self@) ==> r == Err::<Vec<u8>, DnsError>(
                DnsError::LabelTooLong,
            ),
    {
        let mut out = match encode_name(self.q_name.as_slice()) {
            Ok(v) => v,
            Err(e) => { return Err(e) },
        };
        push_u16(&mut out, self.q_type.to_u16());
        push_u16(&mut out, self.q_class.to_u16());
        proof {
            assert(out@ =~= spec_question_wire(self@));
        }
        Ok(out)
    }
}

/// Round trip for a question embedded in a larger buffer: decoding at the
/// start of the wire form of a valid question yields the question back and
/// consumes exactly its wire form.
pub proof fn lemma_question_round_trip_at(q: DnsQueryQuestionView, s: Seq<u8>, pos: int)
    requires
        spec_valid_question(q),
        0 <= pos,
        pos + spec_question_wire(q).len() <= s.len(),
        s.subrange(pos, pos + spec_question_wire(q).len() as int) == spec_question_wire(q),
    ensures
        spec_decode_question(s, pos) == Ok::<(DnsQueryQuestionView, int), DnsError>(
            (q, pos + spec_question_wire(q).len()),
        ),
{
    let w = spec_question_wire(q);
    let nw = spec_name_wire(q.q_name);
    let tb = spec_u16_bytes(spec_type_code(q.q_type));
    let cb = spec_u16_bytes(spec_class_code(q.q_class));
    assert(w =~= nw + (tb + cb));
    assert forall|i: int| 0 <= i < w.len() implies s[pos + i] == w[i] by {
        assert(s.subrange(pos, pos + w.len() as int)[i] == s[pos + i]);
    }
    assert(s.subrange(pos, pos + nw.len() as int) =~= nw);
    lemma_name_round_trip_at(q.q_name, s, pos);
    let p = pos + nw.len() as int;
    assert(s[pos + (nw.len() as int)] == w[nw.len() as int]);
    assert(s[pos + (nw.len() as int + 1)] == w[nw.len() as int + 1]);
    assert(s[pos + (nw.len() as int + 2)] == w[nw.len() as int + 2]);
    assert(s[pos + (nw.len() as int + 3)] == w[nw.len() as int + 3]);
    assert(s[p] == tb[0] && s[p + 1] == tb[1] && s[p + 2] == cb[0] && s[p + 3] == cb[1]);
    lemma_u16_bytes_roundtrip(spec_type_code(q.q_type));
    lemma_u16_bytes_roundtrip(spec_class_code(q.q_class));
    lemma_type_code_round_trip(q.q_type);
    lemma_class_code_round_trip(q.q_class);
}

/// Round trip: decoding the encoding of any valid question yields that
/// question back, consuming the whole buffer.
pub proof fn lemma_question_round_trip(q: DnsQueryQuestionView)
    requires
        spec_valid_question(q),
    ensures
        spec_decode_question(spec_question_wire(q), 0) == Ok::<
            (DnsQueryQuestionView, int),
            DnsError,
        >((q, spec_question_wire(q).len() as int)),
{
    let w = spec_question_wire(q);
    assert(w.subrange(0, w.len() as int) =~= w);
    lemma_question_round_trip_at(q, w, 0);
}

} // verus!
