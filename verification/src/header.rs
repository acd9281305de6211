//! The header codec: the fixed 12-byte message header, including the 16-bit
//! bit-packed flags word (QR, OPCODE, AA, TC, RD, RA, Z, RCODE).
//!
//! ```text
//!  15 14 13 12 11 10  9  8  7  6  5  4  3  2  1  0
//! +--+--+--+--+--+--+--+--+--+--+--+--+--+--+--+--+
//! |                      id                       |
//! +--+--+--+--+--+--+--+--+--+--+--+--+--+--+--+--+
//! |qr|  op_code  |aa|tc|rd|ra|   z    |  r_code   |
//! +--+--+--+--+--+--+--+--+--+--+--+--+--+--+--+--+
//! |                   qd_count                    |
//! +--+--+--+--+--+--+--+--+--+--+--+--+--+--+--+--+
//! |                   an_count                    |
//! +--+--+--+--+--+--+--+--+--+--+--+--+--+--+--+--+
//! |                   ns_count                    |
//! +--+--+--+--+--+--+--+--+--+--+--+--+--+--+--+--+
//! |                   ar_count                    |
//! +--+--+--+--+--+--+--+--+--+--+--+--+--+--+--+--+
//! ```
//!
//! Flag sub-fields are extracted lazily: the flags word is stored raw and
//! each accessor masks out its bit range and maps it through a total
//! function, so every 16-bit pattern is accepted. Each mutator overwrites
//! only its own bit range (clear with a mask, then OR in the new value) and
//! provably leaves every other sub-field unchanged.

use vstd::prelude::*;

use crate::errors::DnsError;
use crate::utils::{
    lemma_u16_bytes_roundtrip, parse_u16, push_u16, spec_u16_bytes, spec_u16_of_bytes,
};

verus! {

/// Bit 15 of the flags word: query or response.
#[derive(Clone, Copy, Debug, PartialEq, Eq, Structural)]
pub enum DnsQueryHeaderFlagsQr {
    /// 0: a query
    Query,
    /// 1: a response
    Response,
}

/// Bits 11-14 of the flags word: the kind of query.
#[derive(Clone, Copy, Debug, PartialEq, Eq, Structural)]
pub enum DnsQueryHeaderFlagsOpcode {
    /// 0: a standard query (QUERY)
    StdQuery,
    /// 1: an inverse query (IQUERY)
    InvQuery,
    /// 2: a server status request (STATUS)
    StatReq,
    /// 3: unassigned
    _UnAssign3,
    /// 4: notify
    Notify,
    /// 5: update
    Upd,
    /// 6: DNS Stateful Operations (DSO)
    Dso,
    /// 7-15: reserved for future use
    _Resv7To15,
}

/// Bit 10 of the flags word: authoritative answer.
#[derive(Clone, Copy, Debug, PartialEq, Eq, Structural)]
pub enum DnsQueryHeaderFlagsAa {
    /// 0
    NonAuthAns,
    /// 1
    AuthAns,
}

/// Bit 9 of the flags word: truncated.
#[derive(Clone, Copy, Debug, PartialEq, Eq, Structural)]
pub enum DnsQueryHeaderFlagsTc {
    /// 0
    NonTrunc,
    /// 1
    Trunc,
}

/// Bit 8 of the flags word: recursion desired.
#[derive(Clone, Copy, Debug, PartialEq, Eq, Structural)]
pub enum DnsQueryHeaderFlagsRd {
    /// 0
    NotRecur,
    /// 1
    Recur,
}

/// Bit 7 of the flags word: recursion available.
#[derive(Clone, Copy, Debug, PartialEq, Eq, Structural)]
pub enum DnsQueryHeaderFlagsRa {
    /// 0
    NotAvailable,
    /// 1
    Available,
}

/// Bits 0-3 of the flags word: the response code.
#[derive(Clone, Copy, Debug, PartialEq, Eq, Structural)]
pub enum DnsQueryHeaderFlagsRcode {
    /// 0: no error condition
    NoErr,
    /// 1: format error - the name server was unable to interpret the query
    FormatErr,
    /// 2: server failure
    SvrFail,
    /// 3: name error - the queried domain name does not exist
    NameErr,
    /// 4: not implemented
    NotImpl,
    /// 5: refused for policy reasons
    Refused,
    /// 6: a name that should not exist does exist
    NameExist,
    /// 7: a resource record set that should not exist does exist
    ResRecordExist,
    /// 8: a resource record set that should exist does not exist
    ResRecordNotExist,
    /// 9: the server is not authoritative for the zone
    ZoneNotAuth,
    /// 10: a name is not within the zone specified by the zone section
    NameNotInZone,
    /// 11-15: reserved for future use
    _Resv11To15,
}

/// The raw 16-bit flags word. No bit pattern is rejected: sub-fields are
/// extracted on demand through the total mappings below.
#[derive(Clone, Copy, Debug, PartialEq, Eq, Structural)]
pub struct DnsQueryHeaderFlags(pub u16);

/// The QR sub-field encoded in a flags word.
pub open spec fn spec_qr_of(w: u16) -> DnsQueryHeaderFlagsQr {
    if (w >> 15) & 1 == 0 {
        DnsQueryHeaderFlagsQr::Query
    } else {
        DnsQueryHeaderFlagsQr::Response
    }
}

/// The bit value a QR variant occupies on the wire.
pub open spec fn spec_qr_bits(qr: DnsQueryHeaderFlagsQr) -> u16 {
    match qr {
        DnsQueryHeaderFlagsQr::Query => 0,
        DnsQueryHeaderFlagsQr::Response => 1,
    }
}

/// The OPCODE sub-field encoded in a flags word; every 4-bit pattern maps to
/// a variant.
pub open spec fn spec_op_code_of(w: u16) -> DnsQueryHeaderFlagsOpcode {
    let v = (w >> 11) & 0xf;
    if v == 0 {
        DnsQueryHeaderFlagsOpcode::StdQuery
    } else if v == 1 {
        DnsQueryHeaderFlagsOpcode::InvQuery
    } else if v == 2 {
        DnsQueryHeaderFlagsOpcode::StatReq
    } else if v == 3 {
        DnsQueryHeaderFlagsOpcode::_UnAssign3
    } else if v == 4 {
        DnsQueryHeaderFlagsOpcode::Notify
    } else if v == 5 {
        DnsQueryHeaderFlagsOpcode::Upd
    } else if v == 6 {
        DnsQueryHeaderFlagsOpcode::Dso
    } else {
        DnsQueryHeaderFlagsOpcode::_Resv7To15
    }
}

/// The bit value an OPCODE variant occupies on the wire (the reserved
/// catch-all writes back as 15, the largest code it covers).
pub open spec fn spec_op_code_bits(op: DnsQueryHeaderFlagsOpcode) -> u16 {
    match op {
        DnsQueryHeaderFlagsOpcode::StdQuery => 0,
        DnsQueryHeaderFlagsOpcode::InvQuery => 1,
        DnsQueryHeaderFlagsOpcode::StatReq => 2,
        DnsQueryHeaderFlagsOpcode::_UnAssign3 => 3,
        DnsQueryHeaderFlagsOpcode::Notify => 4,
        DnsQueryHeaderFlagsOpcode::Upd => 5,
        DnsQueryHeaderFlagsOpcode::Dso => 6,
        DnsQueryHeaderFlagsOpcode::_Resv7To15 => 15,
    }
}

/// The AA sub-field encoded in a flags word.
pub open spec fn spec_aa_of(w: u16) -> DnsQueryHeaderFlagsAa {
    if (w >> 10) & 1 == 0 {
        DnsQueryHeaderFlagsAa::NonAuthAns
    } else {
        DnsQueryHeaderFlagsAa::AuthAns
    }
}

/// The TC sub-field encoded in a flags word.
pub open spec fn spec_tc_of(w: u16) -> DnsQueryHeaderFlagsTc {
    if (w >> 9) & 1 == 0 {
        DnsQueryHeaderFlagsTc::NonTrunc
    } else {
        DnsQueryHeaderFlagsTc::Trunc
    }
}

/// The bit value a TC variant occupies on the wire.
pub open spec fn spec_tc_bits(tc: DnsQueryHeaderFlagsTc) -> u16 {
    match tc {
        DnsQueryHeaderFlagsTc::NonTrunc => 0,
        DnsQueryHeaderFlagsTc::Trunc => 1,
    }
}

/// The RD sub-field encoded in a flags word.
pub open spec fn spec_rd_of(w: u16) -> DnsQueryHeaderFlagsRd {
    if (w >> 8) & 1 == 0 {
        DnsQueryHeaderFlagsRd::NotRecur
    } else {
        DnsQueryHeaderFlagsRd::Recur
    }
}

/// The bit value an RD variant occupies on the wire.
pub open spec fn spec_rd_bits(rd: DnsQueryHeaderFlagsRd) -> u16 {
    match rd {
        DnsQueryHeaderFlagsRd::NotRecur => 0,
        DnsQueryHeaderFlagsRd::Recur => 1,
    }
}

/// The RA sub-field encoded in a flags word.
pub open spec fn spec_ra_of(w: u16) -> DnsQueryHeaderFlagsRa {
    if (w >> 7) & 1 == 0 {
        DnsQueryHeaderFlagsRa::NotAvailable
    } else {
        DnsQueryHeaderFlagsRa::Available
    }
}

/// The bit value an RA variant occupies on the wire.
pub open spec fn spec_ra_bits(ra: DnsQueryHeaderFlagsRa) -> u16 {
    match ra {
        DnsQueryHeaderFlagsRa::NotAvailable => 0,
        DnsQueryHeaderFlagsRa::Available => 1,
    }
}

/// The Z sub-field (bits 4-6, reserved) encoded in a flags word.
pub open spec fn spec_z_of(w: u16) -> u16 {
    (w >> 4) & 7
}

/// The RCODE sub-field encoded in a flags word; every 4-bit pattern maps to
/// a variant.
pub open spec fn spec_r_code_of(w: u16) -> DnsQueryHeaderFlagsRcode {
    let v = w & 0xf;
    if v == 0 {
        DnsQueryHeaderFlagsRcode::NoErr
    } else if v == 1 {
        DnsQueryHeaderFlagsRcode::FormatErr
    } else if v == 2 {
        DnsQueryHeaderFlagsRcode::SvrFail
    } else if v == 3 {
        DnsQueryHeaderFlagsRcode::NameErr
    } else if v == 4 {
        DnsQueryHeaderFlagsRcode::NotImpl
    } else if v == 5 {
        DnsQueryHeaderFlagsRcode::Refused
    } else if v == 6 {
        DnsQueryHeaderFlagsRcode::NameExist
    } else if v == 7 {
        DnsQueryHeaderFlagsRcode::ResRecordExist
    } else if v == 8 {
        DnsQueryHeaderFlagsRcode::ResRecordNotExist
    } else if v == 9 {
        DnsQueryHeaderFlagsRcode::ZoneNotAuth
    } else if v == 10 {
        DnsQueryHeaderFlagsRcode::NameNotInZone
    } else {
        DnsQueryHeaderFlagsRcode::_Resv11To15
    }
}

impl DnsQueryHeaderFlags {
    /// Extracts the QR sub-field; total over every flags word.
    pub fn qr(&self) -> (r: DnsQueryHeaderFlagsQr)
        ensures
            r == spec_qr_of(self.0),
    {
        if (self.0 >> 15) & 1 == 0 {
            DnsQueryHeaderFlagsQr::Query
        } else {
            DnsQueryHeaderFlagsQr::Response
        }
    }

    /// Sets the QR sub-field, leaving every other sub-field unchanged.
    pub fn qr_mut(&mut self, new: &DnsQueryHeaderFlagsQr)
        ensures
            final(self).0 == (old(self).0 & !(1u16 << 15)) | (spec_qr_bits(*new) << 15),
            spec_qr_of(final(self).0) == *new,
            spec_op_code_of(final(self).0) == spec_op_code_of(old(self).0),
            spec_aa_of(final(self).0) == spec_aa_of(old(self).0),
            spec_tc_of(final(self).0) == spec_tc_of(old(self).0),
            spec_rd_of(final(self).0) == spec_rd_of(old(self).0),
            spec_ra_of(final(self).0) == spec_ra_of(old(self).0),
            spec_z_of(final(self).0) == spec_z_of(old(self).0),
            spec_r_code_of(final(self).0) == spec_r_code_of(old(self).0),
    {
        let bits: u16 = match *new {
            DnsQueryHeaderFlagsQr::Query => 0,
            DnsQueryHeaderFlagsQr::Response => 1,
        };
        let w0 = self.0;
        let w1 = (w0 & !(1u16 << 15)) | (bits << 15);
        proof {
            assert((w1 >> 15) & 1 == bits && (w1 >> 11) & 0xf == (w0 >> 11) & 0xf && (w1 >> 10) & 1
                == (w0 >> 10) & 1 && (w1 >> 9) & 1 == (w0 >> 9) & 1 && (w1 >> 8) & 1 == (w0 >> 8)
                & 1 && (w1 >> 7) & 1 == (w0 >> 7) & 1 && (w1 >> 4) & 7 == (w0 >> 4) & 7 && w1 & 0xf
                == w0 & 0xf) by (bit_vector)
                requires
                    w1 == (w0 & !(1u16 << 15)) | (bits << 15),
                    bits == 0 || bits == 1,
            ;
        }
        self.0 = w1;
    }

    /// Extracts the OPCODE sub-field; total over every flags word.
    pub fn op_code(&self) -> (r: DnsQueryHeaderFlagsOpcode)
        ensures
            r == spec_op_code_of(self.0),
    {
        let v = (self.0 >> 11) & 0xf;
        if v == 0 {
            DnsQueryHeaderFlagsOpcode::StdQuery
        } else if v == 1 {
            DnsQueryHeaderFlagsOpcode::InvQuery
        } else if v == 2 {
            DnsQueryHeaderFlagsOpcode::StatReq
        } else if v == 3 {
            DnsQueryHeaderFlagsOpcode::_UnAssign3
        } else if v == 4 {
            DnsQueryHeaderFlagsOpcode::Notify
        } else if v == 5 {
            DnsQueryHeaderFlagsOpcode::Upd
        } else if v == 6 {
            DnsQueryHeaderFlagsOpcode::Dso
        } else {
            DnsQueryHeaderFlagsOpcode::_Resv7To15
        }
    }

    /// Sets the OPCODE sub-field, leaving every other sub-field unchanged.
    pub fn op_code_mut(&mut self, new: &DnsQueryHeaderFlagsOpcode)
        ensures
            final(self).0 == (old(self).0 & !(0xfu16 << 11)) | (spec_op_code_bits(*new) << 11),
            spec_op_code_of(final(self).0) == *new,
            spec_qr_of(final(self).0) == spec_qr_of(old(self).0),
            spec_aa_of(final(self).0) == spec_aa_of(old(self).0),
            spec_tc_of(final(self).0) == spec_tc_of(old(self).0),
            spec_rd_of(final(self).0) == spec_rd_of(old(self).0),
            spec_ra_of(final(self).0) == spec_ra_of(old(self).0),
            spec_z_of(final(self).0) == spec_z_of(old(self).0),
            spec_r_code_of(final(self).0) == spec_r_code_of(old(self).0),
    {
        let bits: u16 = match *new {
            DnsQueryHeaderFlagsOpcode::StdQuery => 0,
            DnsQueryHeaderFlagsOpcode::InvQuery => 1,
            DnsQueryHeaderFlagsOpcode::StatReq => 2,
            DnsQueryHeaderFlagsOpcode::_UnAssign3 => 3,
            DnsQueryHeaderFlagsOpcode::Notify => 4,
            DnsQueryHeaderFlagsOpcode::Upd => 5,
            DnsQueryHeaderFlagsOpcode::Dso => 6,
            DnsQueryHeaderFlagsOpcode::_Resv7To15 => 15,
        };
        let w0 = self.0;
        let w1 = (w0 & !(0xfu16 << 11)) | (bits << 11);
        proof {
            assert((w1 >> 11) & 0xf == bits && ((bits << 11) as u16 >> 11) & 0xf == bits && (w1
                >> 15) & 1 == (w0 >> 15) & 1 && (w1 >> 10) & 1 == (w0 >> 10) & 1 && (w1 >> 9) & 1
                == (w0 >> 9) & 1 && (w1 >> 8) & 1 == (w0 >> 8) & 1 && (w1 >> 7) & 1 == (w0 >> 7)
                & 1 && (w1 >> 4) & 7 == (w0 >> 4) & 7 && w1 & 0xf == w0 & 0xf) by (bit_vector)
                requires
                    w1 == (w0 & !(0xfu16 << 11)) | (bits << 11),
                    bits <= 15,
            ;
        }
        self.0 = w1;
    }

    /// Extracts the AA sub-field; total over every flags word.
    pub fn aa(&self) -> (r: DnsQueryHeaderFlagsAa)
        ensures
            r == spec_aa_of(self.0),
    {
        if (self.0 >> 10) & 1 == 0 {
            DnsQueryHeaderFlagsAa::NonAuthAns
        } else {
            DnsQueryHeaderFlagsAa::AuthAns
        }
    }

    /// Extracts the TC sub-field; total over every flags word.
    pub fn tc(&self) -> (r: DnsQueryHeaderFlagsTc)
        ensures
            r == spec_tc_of(self.0),
    {
        if (self.0 >> 9) & 1 == 0 {
            DnsQueryHeaderFlagsTc::NonTrunc
        } else {
            DnsQueryHeaderFlagsTc::Trunc
        }
    }

    /// Sets the TC sub-field, leaving every other sub-field unchanged.
    pub fn tc_mut(&mut self, new: &DnsQueryHeaderFlagsTc)
        ensures
            final(self).0 == (old(self).0 & !(1u16 << 9)) | (spec_tc_bits(*new) << 9),
            spec_tc_of(final(self).0) == *new,
            spec_qr_of(final(self).0) == spec_qr_of(old(self).0),
            spec_op_code_of(final(self).0) == spec_op_code_of(old(self).0),
            spec_aa_of(final(self).0) == spec_aa_of(old(self).0),
            spec_rd_of(final(self).0) == spec_rd_of(old(self).0),
            spec_ra_of(final(self).0) == spec_ra_of(old(self).0),
            spec_z_of(final(self).0) == spec_z_of(old(self).0),
            spec_r_code_of(final(self).0) == spec_r_code_of(old(self).0),
    {
        let bits: u16 = match *new {
            DnsQueryHeaderFlagsTc::NonTrunc => 0,
            DnsQueryHeaderFlagsTc::Trunc => 1,
        };
        let w0 = self.0;
        let w1 = (w0 & !(1u16 << 9)) | (bits << 9);
        proof {
            assert((w1 >> 9) & 1 == bits && (w1 >> 15) & 1 == (w0 >> 15) & 1 && (w1 >> 11) & 0xf
                == (w0 >> 11) & 0xf && (w1 >> 10) & 1 == (w0 >> 10) & 1 && (w1 >> 8) & 1 == (w0
                >> 8) & 1 && (w1 >> 7) & 1 == (w0 >> 7) & 1 && (w1 >> 4) & 7 == (w0 >> 4) & 7 && w1
                & 0xf == w0 & 0xf) by (bit_vector)
                requires
                    w1 == (w0 & !(1u16 << 9)) | (bits << 9),
                    bits == 0 || bits == 1,
            ;
        }
        self.0 = w1;
    }

    /// Extracts the RD sub-field; total over every flags word.
    pub fn rd(&self) -> (r: DnsQueryHeaderFlagsRd)
        ensures
            r == spec_rd_of(self.0),
    {
        if (self.0 >> 8) & 1 == 0 {
            DnsQueryHeaderFlagsRd::NotRecur
        } else {
            DnsQueryHeaderFlagsRd::Recur
        }
    }

    /// Sets the RD sub-field, leaving every other sub-field unchanged.
    pub fn rd_mut(&mut self, new: &DnsQueryHeaderFlagsRd)
        ensures
            final(self).0 == (old(self).0 & !(1u16 << 8)) | (spec_rd_bits(*new) << 8),
            spec_rd_of(final(self).0) == *new,
            spec_qr_of(final(self).0) == spec_qr_of(old(self).0),
            spec_op_code_of(final(self).0) == spec_op_code_of(old(self).0),
            spec_aa_of(final(self).0) == spec_aa_of(old(self).0),
            spec_tc_of(final(self).0) == spec_tc_of(old(self).0),
            spec_ra_of(final(self).0) == spec_ra_of(old(self).0),
            spec_z_of(final(self).0) == spec_z_of(old(self).0),
            spec_r_code_of(final(self).0) == spec_r_code_of(old(self).0),
    {
        let bits: u16 = match *new {
            DnsQueryHeaderFlagsRd::NotRecur => 0,
            DnsQueryHeaderFlagsRd::Recur => 1,
        };
        let w0 = self.0;
        let w1 = (w0 & !(1u16 << 8)) | (bits << 8);
        proof {
            assert((w1 >> 8) & 1 == bits && (w1 >> 15) & 1 == (w0 >> 15) & 1 && (w1 >> 11) & 0xf
                == (w0 >> 11) & 0xf && (w1 >> 10) & 1 == (w0 >> 10) & 1 && (w1 >> 9) & 1 == (w0
                >> 9) & 1 && (w1 >> 7) & 1 == (w0 >> 7) & 1 && (w1 >> 4) & 7 == (w0 >> 4) & 7 && w1
                & 0xf == w0 & 0xf) by (bit_vector)
                requires
                    w1 == (w0 & !(1u16 << 8)) | (bits << 8),
                    bits == 0 || bits == 1,
            ;
        }
        self.0 = w1;
    }

    /// Extracts the RA sub-field; total over every flags word.
    pub fn ra(&self) -> (r: DnsQueryHeaderFlagsRa)
        ensures
            r == spec_ra_of(self.0),
    {
        if (self.0 >> 7) & 1 == 0 {
            DnsQueryHeaderFlagsRa::NotAvailable
        } else {
            DnsQueryHeaderFlagsRa::Available
        }
    }

    /// Sets the RA sub-field, leaving every other sub-field unchanged.
    pub fn ra_mut(&mut self, new: &DnsQueryHeaderFlagsRa)
        ensures
            final(self).0 == (old(self).0 & !(1u16 << 7)) | (spec_ra_bits(*new) << 7),
            spec_ra_of(final(self).0) == *new,
            spec_qr_of(final(self).0) == spec_qr_of(old(self).0),
            spec_op_code_of(final(self).0) == spec_op_code_of(old(self).0),
            spec_aa_of(final(self).0) == spec_aa_of(old(self).0),
            spec_tc_of(final(self).0) == spec_tc_of(old(self).0),
            spec_rd_of(final(self).0) == spec_rd_of(old(self).0),
            spec_z_of(final(self).0) == spec_z_of(old(self).0),
            spec_r_code_of(final(self).0) == spec_r_code_of(old(self).0),
    {
        let bits: u16 = match *new {
            DnsQueryHeaderFlagsRa::NotAvailable => 0,
            DnsQueryHeaderFlagsRa::Available => 1,
        };
        let w0 = self.0;
        let w1 = (w0 & !(1u16 << 7)) | (bits << 7);
        proof {
            assert((w1 >> 7) & 1 == bits && (w1 >> 15) & 1 == (w0 >> 15) & 1 && (w1 >> 11) & 0xf
                == (w0 >> 11) & 0xf && (w1 >> 10) & 1 == (w0 >> 10) & 1 && (w1 >> 9) & 1 == (w0
                >> 9) & 1 && (w1 >> 8) & 1 == (w0 >> 8) & 1 && (w1 >> 4) & 7 == (w0 >> 4) & 7 && w1
                & 0xf == w0 & 0xf) by (bit_vector)
                requires
                    w1 == (w0 & !(1u16 << 7)) | (bits << 7),
                    bits == 0 || bits == 1,
            ;
        }
        self.0 = w1;
    }

    /// Extracts the RCODE sub-field; total over every flags word.
    pub fn r_code(&self) -> (r: DnsQueryHeaderFlagsRcode)
        ensures
            r == spec_r_code_of(self.0),
    {
        let v = self.0 & 0xf;
        if v == 0 {
            DnsQueryHeaderFlagsRcode::NoErr
        } else if v == 1 {
            DnsQueryHeaderFlagsRcode::FormatErr
        } else if v == 2 {
            DnsQueryHeaderFlagsRcode::SvrFail
        } else if v == 3 {
            DnsQueryHeaderFlagsRcode::NameErr
        } else if v == 4 {
            DnsQueryHeaderFlagsRcode::NotImpl
        } else if v == 5 {
            DnsQueryHeaderFlagsRcode::Refused
        } else if v == 6 {
            DnsQueryHeaderFlagsRcode::NameExist
        } else if v == 7 {
            DnsQueryHeaderFlagsRcode::ResRecordExist
        } else if v == 8 {
            DnsQueryHeaderFlagsRcode::ResRecordNotExist
        } else if v == 9 {
            DnsQueryHeaderFlagsRcode::ZoneNotAuth
        } else if v == 10 {
            DnsQueryHeaderFlagsRcode::NameNotInZone
        } else {
            DnsQueryHeaderFlagsRcode::_Resv11To15
        }
    }
}

/// A decoded message header. The flags word is kept raw; its sub-fields are
/// read through the accessors on [`DnsQueryHeaderFlags`].
#[derive(Clone, Copy, Debug, PartialEq, Eq, Structural)]
pub struct DnsQueryHeader {
    pub id: u16,
    pub flags: DnsQueryHeaderFlags,
    pub qd_count: u16,
    pub an_count: u16,
    pub ns_count: u16,
    pub ar_count: u16,
}

/// The 12 bytes of a header on the wire: each field big-endian, in order.
pub open spec fn spec_header_wire(h: DnsQueryHeader) -> Seq<u8> {
    spec_u16_bytes(h.id) + spec_u16_bytes(h.flags.0) + spec_u16_bytes(h.qd_count) + spec_u16_bytes(
        h.an_count,
    ) + spec_u16_bytes(h.ns_count) + spec_u16_bytes(h.ar_count)
}

/// The header read from 12 bytes at `pos`, or truncation when fewer remain.
pub open spec fn spec_decode_header(s: Seq<u8>, pos: int) -> Result<DnsQueryHeader, DnsError> {
    if 0 <= pos && pos + 12 <= s.len() {
        Ok(
            DnsQueryHeader {
                id: spec_u16_of_bytes(s[pos], s[pos + 1]),
                flags: DnsQueryHeaderFlags(spec_u16_of_bytes(s[pos + 2], s[pos + 3])),
                qd_count: spec_u16_of_bytes(s[pos + 4], s[pos + 5]),
                an_count: spec_u16_of_bytes(s[pos + 6], s[pos + 7]),
                ns_count: spec_u16_of_bytes(s[pos + 8], s[pos + 9]),
                ar_count: spec_u16_of_bytes(s[pos + 10], s[pos + 11]),
            },
        )
    } else {
        Err(DnsError::TruncatedInput)
    }
}

impl DnsQueryHeader {
    /// Decodes the 12-byte header at `pos`: `id`, the raw flags word and the
    /// four section counts, each big-endian. Fails with `TruncatedInput` when
    /// fewer than 12 bytes remain; the flags word is not validated here.
    pub fn decode(bytes: &[u8], pos: usize) -> (r: Result<DnsQueryHeader, DnsError>)
        ensures
            r == spec_decode_header(bytes@, pos as int),
    {
        if bytes.len() < 12 || pos > bytes.len() - 12 {
            return Err(DnsError::TruncatedInput);
        }
        let id = match parse_u16(bytes, pos) {
            Ok(v) => v,
            Err(e) => { return Err(e); },
        };
        let flags = match parse_u16(bytes, pos + 2) {
            Ok(v) => v,
            Err(e) => { return Err(e); },
        };
        let qd_count = match parse_u16(bytes, pos + 4) {
            Ok(v) => v,
            Err(e) => { return Err(e); },
        };
        let an_count = match parse_u16(bytes, pos + 6) {
            Ok(v) => v,
            Err(e) => { return Err(e); },
        };
        let ns_count = match parse_u16(bytes, pos + 8) {
            Ok(v) => v,
            Err(e) => { return Err(e); },
        };
        let ar_count = match parse_u16(bytes, pos + 10) {
            Ok(v) => v,
            Err(e) => { return Err(e); },
        };
        Ok(
            DnsQueryHeader {
                id,
                flags: DnsQueryHeaderFlags(flags),
                qd_count,
                an_count,
                ns_count,
                ar_count,
            },
        )
    }

    /// Encodes the header as its 12 wire bytes; the inverse of `decode`.
    pub fn encode(&self) -> (r: Vec<u8>)
        ensures
            r@ == spec_header_wire(*self),
    {
        let mut out: Vec<u8> = Vec::new();
        push_u16(&mut out, self.id);
        push_u16(&mut out, self.flags.0);
        push_u16(&mut out, self.qd_count);
        push_u16(&mut out, self.an_count);
        push_u16(&mut out, self.ns_count);
        push_u16(&mut out, self.ar_count);
        proof {
            assert(out@ =~= spec_header_wire(*self));
        }
        out
    }
}

/// Round trip: decoding the encoding of any header yields that header back.
pub proof fn lemma_header_round_trip(h: DnsQueryHeader)
    ensures
        spec_decode_header(spec_header_wire(h), 0) == Ok::<DnsQueryHeader, DnsError>(h),
{
    let w = spec_header_wire(h);
    assert(w =~= seq![
        spec_u16_bytes(h.id)[0],
        spec_u16_bytes(h.id)[1],
        spec_u16_bytes(h.flags.0)[0],
        spec_u16_bytes(h.flags.0)[1],
        spec_u16_bytes(h.qd_count)[0],
        spec_u16_bytes(h.qd_count)[1],
        spec_u16_bytes(h.an_count)[0],
        spec_u16_bytes(h.an_count)[1],
        spec_u16_bytes(h.ns_count)[0],
        spec_u16_bytes(h.ns_count)[1],
        spec_u16_bytes(h.ar_count)[0],
        spec_u16_bytes(h.ar_count)[1],
    ]);
    lemma_u16_bytes_roundtrip(h.id);
    lemma_u16_bytes_roundtrip(h.flags.0);
    lemma_u16_bytes_roundtrip(h.qd_count);
    lemma_u16_bytes_roundtrip(h.an_count);
    lemma_u16_bytes_roundtrip(h.ns_count);
    lemma_u16_bytes_roundtrip(h.ar_count);
}

} // verus!
