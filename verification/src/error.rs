//! Error values surfaced by keypair construction, decoding and key exchange.

use vstd::prelude::*;

verus! {

/// The errors this library reports.  Every failure is a typed, inspectable
/// value; no operation panics on library-accepted inputs.
#[derive(Debug, Clone, Copy, PartialEq, Eq, Structural)]
pub enum Error {
    /// The leading byte of a serialized key names no known key type.
    /// Carries the offending byte.
    InvalidKeyType(u8),
    /// A serialized key was empty, so no tag byte could be read.
    MissingKeyType,
    /// Key exchange was requested of a backend whose curve does not
    /// support it, or with a peer key on a different curve.
    InvalidCurve,
    /// The entropy handed to deterministic generation was rejected by the
    /// backend (wrong length, or no valid key derives from it).
    InvalidEntropy,
    /// The body of a serialized key did not decode to a valid key for the
    /// tagged backend.
    InvalidKeyBytes,
    /// A signature was not accepted for the given public key and message.
    InvalidSignature,
}

} // verus!
