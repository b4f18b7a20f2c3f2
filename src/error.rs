//! The failures of the codec.
use vstd::prelude::*;

verus! {

/// What can go wrong when decoding a header or checksumming a segment.
#[derive(Debug, Clone, Copy, PartialEq, Eq, Structural)]
pub enum TcpError {
    /// Fewer than 20 bytes were given for a header.
    MalformedHeader,
    /// The stored checksum differs from the one computed afresh.
    ChecksumMismatch,
    /// Header and payload together are 65536 bytes or more, which the
    /// 16-bit length of the pseudo-header cannot hold.
    LengthOverflow,
}

} // verus!
