//! The domain-name codec: the length-prefixed label sequence of RFC 1035.
//!
//! A domain name is carried here as its dotted text, a byte string such as
//! `www.example.com`. On the wire each dot-separated label is written as a
//! length byte followed by that many bytes, and the sequence ends with a
//! zero-length label. Name compression (a length byte with both high bits
//! set, signalling a back-reference) is not supported and is rejected with a
//! distinct error rather than misparsed as a label length.

use vstd::prelude::*;

use crate::errors::DnsError;

verus! {

/// The label separator in the dotted text form of a name: `.`
pub const DOT_BYTE: u8 = 46;

/// The index of the first separator byte in `name`, or `name.len()` if there
/// is none.
pub open spec fn spec_dot_pos(name: Seq<u8>) -> int
    decreases name.len(),
{
    if name.len() == 0 {
        0
    } else if name[0] == DOT_BYTE {
        0
    } else {
        1 + spec_dot_pos(name.drop_first())
    }
}

/// Any index with no separator before it, that is itself a separator or the
/// end of the name, is `spec_dot_pos`.
pub proof fn lemma_dot_pos_is(name: Seq<u8>, j: int)
    requires
        0 <= j <= name.len(),
        forall|i: int| 0 <= i < j ==> name[i] != DOT_BYTE,
        j < name.len() ==> name[j] == DOT_BYTE,
    ensures
        spec_dot_pos(name) == j,
    decreases name.len(),
{
    if name.len() == 0 {
    } else if name[0] == DOT_BYTE {
    } else {
        assert forall|i: int| 0 <= i < j - 1 implies name.drop_first()[i] != DOT_BYTE by {
            assert(name.drop_first()[i] == name[i + 1]);
        }
        lemma_dot_pos_is(name.drop_first(), j - 1);
    }
}

/// The labels of a dotted name: the maximal separator-free runs, in order.
/// The empty name has no labels; a name with a trailing, leading or doubled
/// separator yields empty labels or drops them, and such names are exactly
/// the ones [`spec_valid_name`] rejects.
pub open spec fn spec_split_name(name: Seq<u8>) -> Seq<Seq<u8>>
    decreases name.len(),
{
    if name.len() == 0 {
        seq![]
    } else {
        let d = spec_dot_pos(name);
        if 0 <= d < name.len() {
            seq![name.subrange(0, d)] + spec_split_name(name.subrange(d + 1, name.len() as int))
        } else {
            seq![name]
        }
    }
}

/// The dotted text a label sequence denotes.
pub open spec fn spec_join_labels(ls: Seq<Seq<u8>>) -> Seq<u8>
    decreases ls.len(),
{
    if ls.len() == 0 {
        seq![]
    } else if ls.len() == 1 {
        ls[0]
    } else {
        ls[0] + seq![DOT_BYTE] + spec_join_labels(ls.drop_first())
    }
}

/// The wire form of a label sequence: each label as a length byte followed
/// by its bytes, then a single zero byte to terminate.
pub open spec fn spec_wire_of_labels(ls: Seq<Seq<u8>>) -> Seq<u8>
    decreases ls.len(),
{
    if ls.len() == 0 {
        seq![0u8]
    } else {
        seq![ls[0].len() as u8] + ls[0] + spec_wire_of_labels(ls.drop_first())
    }
}

/// The wire form of a dotted name.
pub open spec fn spec_name_wire(name: Seq<u8>) -> Seq<u8> {
    spec_wire_of_labels(spec_split_name(name))
}

/// Every label fits its length byte; the only failure the encoder can meet.
pub open spec fn spec_labels_encodable(ls: Seq<Seq<u8>>) -> bool {
    forall|i: int| 0 <= i < ls.len() ==> (#[trigger] ls[i]).len() <= 255
}

/// The encoder succeeds on `name` exactly when this holds.
pub open spec fn spec_name_encodable(name: Seq<u8>) -> bool {
    spec_labels_encodable(spec_split_name(name))
}

/// Labels that survive a wire round trip: non-empty (a zero length byte would
/// read as the terminator) and short of 192 (a larger length byte would read
/// as a compression pointer).
pub open spec fn spec_valid_labels(ls: Seq<Seq<u8>>) -> bool {
    forall|i: int| 0 <= i < ls.len() ==> 1 <= (#[trigger] ls[i]).len() <= 191
}

/// A dotted name that survives a round trip: its labels are valid and it is
/// the canonical join of them (so no leading, trailing or doubled separator).
pub open spec fn spec_valid_name(name: Seq<u8>) -> bool {
    &&& spec_valid_labels(spec_split_name(name))
    &&& spec_join_labels(spec_split_name(name)) == name
}

/// The name decoded from `s` at `pos`: reads a length byte, then that many
/// label bytes, joining labels with separators, until the zero terminator.
/// Returns the dotted name and the offset just past the terminator.
pub open spec fn spec_decode_name(s: Seq<u8>, pos: int) -> Result<(Seq<u8>, int), DnsError>
    decreases s.len() - pos,
{
    if pos < 0 || pos >= s.len() {
        Err(DnsError::TruncatedInput)
    } else {
        let l = s[pos];
        if l == 0 {
            Ok((seq![], pos + 1))
        } else if l >= 0xc0 {
            Err(DnsError::CompressionUnsupported)
        } else if pos + 1 + l > s.len() {
            Err(DnsError::TruncatedInput)
        } else {
            match spec_decode_name(s, pos + 1 + l) {
                Ok((rest, end)) => {
                    let label = s.subrange(pos + 1, pos + 1 + l);
                    if rest.len() == 0 {
                        Ok((label, end))
                    } else {
                        Ok((label + seq![DOT_BYTE] + rest, end))
                    }
                },
                Err(e) => Err(e),
            }
        }
    }
}

/// A successful decode consumes at least one byte and stays in bounds.
pub proof fn lemma_decode_name_ok_range(s: Seq<u8>, pos: int)
    requires
        spec_decode_name(s, pos) is Ok,
    ensures
        0 <= pos < spec_decode_name(s, pos)->Ok_0.1 <= s.len(),
    decreases s.len() - pos,
{
    let l = s[pos];
    if l == 0 || l >= 0xc0 || pos + 1 + l > s.len() {
    } else {
        lemma_decode_name_ok_range(s, pos + 1 + l);
    }
}

/// Joining `a` and `b` with a separator, except that an empty side
/// contributes nothing.
spec fn sep_join(a: Seq<u8>, b: Seq<u8>) -> Seq<u8> {
    if a.len() == 0 {
        b
    } else if b.len() == 0 {
        a
    } else {
        a + seq![DOT_BYTE] + b
    }
}

proof fn lemma_sep_join_assoc(a: Seq<u8>, b: Seq<u8>, c: Seq<u8>)
    ensures
        sep_join(sep_join(a, b), c) == sep_join(a, sep_join(b, c)),
{
    assert(sep_join(sep_join(a, b), c) =~= sep_join(a, sep_join(b, c)));
}

/// The loop invariant of [`decode_name`]: decoding the whole name from
/// `start` gives the same outcome as decoding the remaining labels from
/// `cur` and prefixing what is already accumulated in `acc`.
spec fn decode_continues(s: Seq<u8>, start: int, acc: Seq<u8>, cur: int) -> bool {
    match spec_decode_name(s, start) {
        Ok((n, end)) => match spec_decode_name(s, cur) {
            Ok((rest, end2)) => n == sep_join(acc, rest) && end == end2,
            Err(_) => false,
        },
        Err(e) => match spec_decode_name(s, cur) {
            Ok(_) => false,
            Err(e2) => e == e2,
        },
    }
}

/// Decodes the label sequence at `pos` into a dotted name, returning the
/// name and the offset just past its zero terminator. Fails with
/// `TruncatedInput` when a length byte or its label runs past the end of the
/// buffer, and with `CompressionUnsupported` on a compression pointer.
pub fn decode_name(bytes: &[u8], pos: usize) -> (r: Result<(Vec<u8>, usize), DnsError>)
    ensures
        (match spec_decode_name(bytes@, pos as int) {
            Ok((n, end)) => r matches Ok(p) && p.0@ == n && p.1 == end,
            Err(e) => r == Err::<(Vec<u8>, usize), DnsError>(e),
        }),
{
    let mut acc: Vec<u8> = Vec::new();
    let mut cur: usize = pos;
    loop
        invariant
            decode_continues(bytes@, pos as int, acc@, cur as int),
        decreases bytes@.len() - cur,
    {
        if cur >= bytes.len() {
            return Err(DnsError::TruncatedInput);
        }
        let l = bytes[cur];
        if l == 0 {
            return Ok((acc, cur + 1));
        }
        if l >= 0xc0 {
            return Err(DnsError::CompressionUnsupported);
        }
        if (l as usize) > bytes.len() - (cur + 1) {
            return Err(DnsError::TruncatedInput);
        }
        let ghost acc_prev = acc@;
        let ghost label = bytes@.subrange(cur as int + 1, cur as int + 1 + l as int);
        if acc.len() > 0 {
            acc.push(DOT_BYTE);
        }
        let ghost acc_mid = acc@;
        let start = cur + 1;
        let limit = cur + 1 + l as usize;
        let mut idx: usize = start;
        while idx < limit
            invariant
                start <= idx <= limit,
                limit <= bytes@.len(),
                acc@ == acc_mid + bytes@.subrange(start as int, idx as int),
            decreases limit - idx,
        {
            let b = bytes[idx];
            acc.push(b);
            proof {
                assert(acc@ =~= acc_mid + bytes@.subrange(start as int, idx as int + 1));
            }
            idx += 1;
        }
        proof {
            assert(acc@ =~= sep_join(acc_prev, label));
            let next = cur as int + 1 + l as int;
            if spec_decode_name(bytes@, next) is Ok {
                let (rest, end2) = spec_decode_name(bytes@, next)->Ok_0;
                lemma_sep_join_assoc(acc_prev, label, rest);
                assert(label.len() > 0);
                assert(sep_join(label, rest) =~= (if rest.len() == 0 {
                    label
                } else {
                    label + seq![DOT_BYTE] + rest
                }));
            }
        }
        cur = cur + 1 + l as usize;
    }
}

/// Encodes a dotted name as its wire label sequence. Fails with
/// `LabelTooLong` exactly when some label exceeds 255 bytes.
pub fn encode_name(name: &[u8]) -> (r: Result<Vec<u8>, DnsError>)
    ensures
        spec_name_encodable(name@) ==> (r matches Ok(v) && v@ == spec_name_wire(name@)),
        !spec_name_encodable(name@) ==> r == Err::<Vec<u8>, DnsError>(DnsError::LabelTooLong),
{
    let mut out: Vec<u8> = Vec::new();
    if name.len() == 0 {
        out.push(0);
        proof {
            assert(out@ =~= spec_name_wire(name@));
        }
        return Ok(out);
    }
    proof {
        assert(name@.subrange(0, name@.len() as int) =~= name@);
    }
    let mut cur: usize = 0;
    loop
        invariant
            0 <= cur < name@.len(),
            spec_name_encodable(name@) <==> spec_labels_encodable(
                spec_split_name(name@.subrange(cur as int, name@.len() as int)),
            ),
            out@ + spec_wire_of_labels(
                spec_split_name(name@.subrange(cur as int, name@.len() as int)),
            ) == spec_name_wire(name@),
        decreases name@.len() - cur,
    {
        let ghost suffix = name@.subrange(cur as int, name@.len() as int);
        let mut d: usize = cur;
        while d < name.len() && name[d] != DOT_BYTE
            invariant
                cur <= d <= name@.len(),
                forall|i: int| cur <= i < d ==> name@[i] != DOT_BYTE,
            decreases name@.len() - d,
        {
            d += 1;
        }
        proof {
            assert forall|i: int| 0 <= i < d - cur implies suffix[i] != DOT_BYTE by {
                assert(suffix[i] == name@[cur + i]);
            }
            lemma_dot_pos_is(suffix, d - cur as int);
        }
        let ghost label = suffix.subrange(0, d - cur as int);
        let ghost tail = (if (d as int) < name@.len() {
            suffix.subrange(d - cur as int + 1, suffix.len() as int)
        } else {
            Seq::<u8>::empty()
        });
        proof {
            if (d as int) >= name@.len() {
                assert(label =~= suffix);
                assert(spec_split_name(tail) =~= Seq::<Seq<u8>>::empty());
            }
            assert(spec_split_name(suffix) =~= seq![label] + spec_split_name(tail));
            assert(spec_split_name(suffix)[0] == label);
            assert((seq![label] + spec_split_name(tail)).drop_first() =~= spec_split_name(tail));
        }
        let label_len = d - cur;
        if label_len > 255 {
            proof {
                assert(!spec_labels_encodable(spec_split_name(suffix)));
            }
            return Err(DnsError::LabelTooLong);
        }
        let ghost out_before = out@;
        out.push(label_len as u8);
        let mut k: usize = cur;
        while k < d
            invariant
                cur <= k <= d <= name@.len(),
                d - cur <= 255,
                out@ == out_before + seq![(d - cur) as u8] + name@.subrange(cur as int, k as int),
            decreases d - k,
        {
            let b = name[k];
            out.push(b);
            proof {
                assert(out@ =~= out_before + seq![(d - cur) as u8] + name@.subrange(
                    cur as int,
                    k as int + 1,
                ));
            }
            k += 1;
        }
        proof {
            assert(name@.subrange(cur as int, d as int) =~= label);
        }
        proof {
            assert(spec_wire_of_labels(spec_split_name(suffix)) =~= seq![(d - cur) as u8] + label
                + spec_wire_of_labels(spec_split_name(tail)));
        }
        if d == name.len() || d + 1 == name.len() {
            // The name ends here, possibly with a trailing separator after
            // which no labels remain either way.
            out.push(0);
            proof {
                assert(tail.len() == 0);
                assert(spec_split_name(tail) =~= Seq::<Seq<u8>>::empty());
                assert(spec_wire_of_labels(spec_split_name(tail)) =~= seq![0u8]);
                assert(out@ =~= spec_name_wire(name@));
            }
            return Ok(out);
        }
        proof {
            let next_suffix = name@.subrange(d as int + 1, name@.len() as int);
            assert(tail =~= next_suffix);
            assert(spec_labels_encodable(spec_split_name(suffix)) <==> spec_labels_encodable(
                spec_split_name(tail),
            )) by {
                assert(spec_split_name(suffix) =~= seq![label] + spec_split_name(tail));
                if spec_labels_encodable(spec_split_name(tail)) && label.len() <= 255 {
                    assert forall|i: int|
                        0 <= i < spec_split_name(suffix).len() implies (#[trigger] spec_split_name(
                        suffix,
                    )[i]).len() <= 255 by {
                        if i > 0 {
                            assert(spec_split_name(suffix)[i] == spec_split_name(tail)[i - 1]);
                        }
                    }
                }
                if spec_labels_encodable(spec_split_name(suffix)) {
                    assert forall|i: int|
                        0 <= i < spec_split_name(tail).len() implies (#[trigger] spec_split_name(
                        tail,
                    )[i]).len() <= 255 by {
                        assert(spec_split_name(tail)[i] == spec_split_name(suffix)[i + 1]);
                    }
                }
            }
            assert(out@ + spec_wire_of_labels(spec_split_name(tail)) =~= out_before
                + spec_wire_of_labels(spec_split_name(suffix)));
        }
        cur = d + 1;
    }
}

/// Round trip for a label sequence embedded in a larger buffer: decoding at
/// the start of the wire form of valid labels yields their dotted join and
/// consumes exactly the wire form.
pub proof fn lemma_labels_round_trip_at(ls: Seq<Seq<u8>>, s: Seq<u8>, pos: int)
    requires
        spec_valid_labels(ls),
        0 <= pos,
        pos + spec_wire_of_labels(ls).len() <= s.len(),
        s.subrange(pos, pos + spec_wire_of_labels(ls).len() as int) == spec_wire_of_labels(ls),
    ensures
        spec_decode_name(s, pos) == Ok::<(Seq<u8>, int), DnsError>(
            (spec_join_labels(ls), pos + spec_wire_of_labels(ls).len()),
        ),
    decreases ls.len(),
{
    let w = spec_wire_of_labels(ls);
    if ls.len() == 0 {
        assert(w =~= seq![0u8]);
        assert(s[pos] == s.subrange(pos, pos + 1)[0]);
        assert(s[pos] == 0);
    } else {
        let label = ls[0];
        let rest = ls.drop_first();
        let wrest = spec_wire_of_labels(rest);
        assert(w =~= seq![label.len() as u8] + label + wrest);
        assert(s[pos] == s.subrange(pos, pos + w.len() as int)[0]);
        assert(s[pos] == label.len() as u8);
        assert(1 <= label.len() <= 191);
        let l = s[pos];
        assert(l == label.len());
        assert(l != 0 && l < 0xc0);
        let next = pos + 1 + l;
        assert(next + wrest.len() == pos + w.len());
        assert(s.subrange(pos + 1, pos + 1 + l as int) =~= label) by {
            assert forall|i: int| 0 <= i < label.len() implies s.subrange(
                pos + 1,
                pos + 1 + l as int,
            )[i] == label[i] by {
                assert(s.subrange(pos + 1, pos + 1 + l as int)[i] == s[pos + 1 + i]);
                assert(s[pos + 1 + i] == s.subrange(pos, pos + w.len() as int)[1 + i]);
            }
        }
        assert(s.subrange(next, next + wrest.len() as int) =~= wrest) by {
            assert forall|i: int| 0 <= i < wrest.len() implies s.subrange(
                next,
                next + wrest.len() as int,
            )[i] == wrest[i] by {
                assert(s.subrange(next, next + wrest.len() as int)[i] == s[next + i]);
                assert(s[next + i] == s.subrange(pos, pos + w.len() as int)[1 + label.len() + i]);
            }
        }
        lemma_labels_round_trip_at(rest, s, next);
        if rest.len() == 0 {
            assert(spec_join_labels(ls) == label);
        } else {
            assert(spec_join_labels(rest).len() >= rest[0].len() >= 1);
            assert(spec_join_labels(ls) == label + seq![DOT_BYTE] + spec_join_labels(rest));
        }
    }
}

/// Round trip: decoding the wire form of a valid dotted name, embedded at
/// `pos` in a larger buffer, yields the name back and consumes exactly its
/// wire form.
pub proof fn lemma_name_round_trip_at(name: Seq<u8>, s: Seq<u8>, pos: int)
    requires
        spec_valid_name(name),
        0 <= pos,
        pos + spec_name_wire(name).len() <= s.len(),
        s.subrange(pos, pos + spec_name_wire(name).len() as int) == spec_name_wire(name),
    ensures
        spec_decode_name(s, pos) == Ok::<(Seq<u8>, int), DnsError>(
            (name, pos + spec_name_wire(name).len()),
        ),
{
    lemma_labels_round_trip_at(spec_split_name(name), s, pos);
}

/// Labels free of the separator byte. A label holding a separator decodes
/// fine, but its dotted join would split differently, so only
/// separator-free labels survive a wire-level round trip.
pub open spec fn spec_separator_free_labels(ls: Seq<Seq<u8>>) -> bool {
    forall|i: int| 0 <= i < ls.len() ==> !(#[trigger] ls[i]).contains(DOT_BYTE)
}

/// Splitting the dotted join of non-empty, separator-free labels yields the
/// labels back.
pub proof fn lemma_split_join(ls: Seq<Seq<u8>>)
    requires
        forall|i: int| 0 <= i < ls.len() ==> (#[trigger] ls[i]).len() >= 1,
        spec_separator_free_labels(ls),
    ensures
        spec_split_name(spec_join_labels(ls)) == ls,
    decreases ls.len(),
{
    let j = spec_join_labels(ls);
    if ls.len() == 0 {
        assert(spec_split_name(j) =~= ls);
    } else if ls.len() == 1 {
        assert(j == ls[0]);
        assert forall|i: int| 0 <= i < j.len() implies j[i] != DOT_BYTE by {
            if j[i] == DOT_BYTE {
                assert(ls[0].contains(DOT_BYTE));
            }
        }
        lemma_dot_pos_is(j, j.len() as int);
        assert(spec_split_name(j) =~= ls);
    } else {
        let rest = ls.drop_first();
        let jr = spec_join_labels(rest);
        let d = ls[0].len() as int;
        assert(j == ls[0] + seq![DOT_BYTE] + jr);
        assert forall|i: int| 0 <= i < d implies j[i] != DOT_BYTE by {
            assert(j[i] == ls[0][i]);
            if j[i] == DOT_BYTE {
                assert(ls[0].contains(DOT_BYTE));
            }
        }
        assert(j[d] == DOT_BYTE);
        lemma_dot_pos_is(j, d);
        assert(j.subrange(0, d) =~= ls[0]);
        assert(j.subrange(d + 1, j.len() as int) =~= jr);
        assert forall|i: int| 0 <= i < rest.len() implies (#[trigger] rest[i]).len() >= 1 && !rest[
            i
        ].contains(DOT_BYTE) by {
            assert(rest[i] == ls[i + 1]);
        }
        lemma_split_join(rest);
        assert(spec_split_name(j) =~= seq![ls[0]] + rest);
        assert(seq![ls[0]] + rest =~= ls);
    }
}

/// The wire-level invariant of the name codec: a compression-free label
/// sequence read off the wire re-encodes byte for byte, because its dotted
/// join is a valid name whose wire form is the original sequence.
pub proof fn lemma_wire_round_trip(ls: Seq<Seq<u8>>)
    requires
        spec_valid_labels(ls),
        spec_separator_free_labels(ls),
    ensures
        spec_valid_name(spec_join_labels(ls)),
        spec_name_wire(spec_join_labels(ls)) == spec_wire_of_labels(ls),
        spec_decode_name(spec_wire_of_labels(ls), 0) == Ok::<(Seq<u8>, int), DnsError>(
            (spec_join_labels(ls), spec_wire_of_labels(ls).len() as int),
        ),
{
    lemma_split_join(ls);
    let w = spec_wire_of_labels(ls);
    assert(w.subrange(0, w.len() as int) =~= w);
    lemma_labels_round_trip_at(ls, w, 0);
}

/// Round trip in the simplest setting: the buffer is exactly the wire form.
pub proof fn lemma_name_round_trip(name: Seq<u8>)
    requires
        spec_valid_name(name),
    ensures
        spec_decode_name(spec_name_wire(name), 0) == Ok::<(Seq<u8>, int), DnsError>(
            (name, spec_name_wire(name).len() as int),
        ),
{
    let w = spec_name_wire(name);
    assert(w.subrange(0, w.len() as int) =~= w);
    lemma_name_round_trip_at(name, w, 0);
}

} // verus!
