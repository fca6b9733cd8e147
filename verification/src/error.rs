//! The codec's error taxonomy.

use vstd::prelude::*;

verus! {

/// A protocol error found while decoding a response.
///
/// Both kinds leave the stream in an indeterminate position: the caller must
/// re-establish framing (for example by reconnecting) before reusing it.
/// Transport failures are not represented here; the caller's I/O layer
/// surfaces them itself.
#[derive(Clone, Copy, Debug, PartialEq, Eq, Structural)]
pub enum Error {
    /// A framing byte did not match the expected constant: the byte that was
    /// read, then the byte that was expected.
    InvalidReturnByte(u8, u8),
    /// A decoded width field was not 1, 2 or 4.
    InvalidByteSize(u8),
}

} // verus!
