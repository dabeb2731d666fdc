//! Error kinds reported when a document cannot be built or converted.

use vstd::prelude::*;

verus! {

/// Why a conversion to or from a document failed.
///
/// Every fallible operation returns exactly one of these; no operation
/// substitutes a default document or swallows a failure.
#[derive(Clone, Copy, Debug, PartialEq, Eq, Structural)]
pub enum DocumentError {
    /// Binary bytes fail structural DER decoding.
    Malformed,
    /// The textual envelope cannot be parsed (bad delimiters or encoding).
    EnvelopeDecodeFailure,
    /// The envelope parses but carries the wrong type label.
    EnvelopeLabelMismatch,
    /// A typed key view cannot be serialized to canonical bytes.
    EncodingFailure,
}

} // verus!
