//! Typed view of the structural fields of an RSA public key.

use vstd::prelude::*;

verus! {

/// The structural fields of an RSA public key.
///
/// Each field is an arbitrary-precision unsigned integer held as
/// big-endian bytes. Views produced by decoding a document are always in
/// minimal form (see [`is_minimal_uint`]).
#[derive(Clone, Debug)]
pub struct RsaPublicKey {
    /// The modulus `n`, big-endian.
    pub modulus: Vec<u8>,
    /// The public exponent `e`, big-endian.
    pub public_exponent: Vec<u8>,
}

/// Minimal big-endian form of an unsigned integer: non-empty, and without
/// leading zero bytes except for the single byte `0` itself.
///
/// This is the form in which decoding yields the key fields, and the form
/// for which canonical re-encoding reproduces the fields exactly.
pub open spec fn is_minimal_uint(s: Seq<u8>) -> bool {
    s.len() > 0 && (s.len() == 1 || s[0] != 0)
}

impl RsaPublicKey {
    /// Both fields are in minimal big-endian form.
    pub open spec fn is_minimal(&self) -> bool {
        is_minimal_uint(self.modulus@) && is_minimal_uint(self.public_exponent@)
    }
}

} // verus!
