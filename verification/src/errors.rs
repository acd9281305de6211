//! The error taxonomy shared by all sub-codecs.

use vstd::prelude::*;

verus! {

/// Every decode or encode operation returns success or one of these kinds;
/// no operation panics on malformed input.
#[derive(Clone, Copy, Debug, PartialEq, Eq, Structural)]
pub enum DnsError {
    /// Fewer bytes remain than a field or a declared length requires.
    TruncatedInput,
    /// A domain-name label exceeds 255 bytes during encoding.
    LabelTooLong,
    /// A name-compression pointer byte pattern (both high bits of a length
    /// byte set) was encountered during decoding; compression is unsupported.
    CompressionUnsupported,
    /// Resource data length or content is inconsistent with the type-specific
    /// interpretation being attempted.
    MalformedRData,
    /// Header section counts other than the single-entry-per-section model.
    UnknownSectionCount,
}

} // verus!
