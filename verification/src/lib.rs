//! A DNS message codec: encoding and decoding of the RFC 1035 wire format.
//!
//! The codec is organised as four cooperating sub-codecs, composed top-down:
//! the header codec ([`header`]), the domain-name codec ([`name`]), the
//! question codec ([`question`]) and the resource-record codec
//! ([`resource_record`]), assembled into whole messages by [`message`].
//! All multi-byte integers on the wire are big-endian ("network byte order").
//!
//! Every decoder is total over arbitrary byte buffers: malformed or truncated
//! input yields a typed [`errors::DnsError`], never a panic or an
//! out-of-bounds read. Every encoder and decoder carries a contract relating
//! it to a specification-level description of the wire format, and round-trip
//! laws (`decode` of `encode` is the identity) are stated and proved alongside
//! each codec.

pub mod errors;
pub mod header;
pub mod message;
pub mod name;
pub mod question;
pub mod resource_record;
pub mod utils;
