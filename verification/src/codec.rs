//! Binary codec adapter: the boundary to the external DER grammar codec.
//!
//! The `der` crate is authoritative for "well-formed": it decodes a byte
//! buffer into the two key fields and serializes two key fields into the
//! canonical (minimal-length, deterministic) DER encoding. Both results are
//! pure functions of the arguments, named here by uninterpreted spec
//! functions that the rest of the library reasons over.

use vstd::prelude::*;

use crate::key::RsaPublicKey;

verus! {

/// What decoding a byte buffer as a DER `RSAPublicKey` structure yields:
/// `Some((modulus, public_exponent))` when the buffer is well-formed,
/// `None` when it is malformed.
pub uninterp spec fn der_decoded(bytes: Seq<u8>) -> Option<(Seq<u8>, Seq<u8>)>;

/// What serializing two key fields as a DER `RSAPublicKey` structure
/// yields: `Some(bytes)` on success (the canonical encoding), `None` when
/// the fields cannot be serialized.
pub uninterp spec fn der_encoded(modulus: Seq<u8>, public_exponent: Seq<u8>) -> Option<Seq<u8>>;

#[verifier::external_type_specification]
#[verifier::external_body]
pub struct ExDerError(der::Error);

/// Relies on `der::SliceReader` and `der::asn1::UintRef`: decoding reads a
/// `SEQUENCE` of exactly two `INTEGER`s covering the whole input, rejects
/// every non-canonical encoding, and returns each integer as minimal
/// big-endian bytes. The result is a function of the input bytes alone.
#[verifier::external_body]
pub(crate) fn der_decode_key(bytes: &[u8]) -> (r: Result<RsaPublicKey, der::Error>)
    ensures
        match r {
            Ok(key) => der_decoded(bytes@) == Some((key.modulus@, key.public_exponent@))
                && key.is_minimal() && bytes@.len() > 0,
            Err(_) => der_decoded(bytes@) is None,
        },
{
    let mut reader = der::SliceReader::new(bytes)?;
    let key = der::Reader::sequence(&mut reader, |nested| {
        let modulus: der::asn1::UintRef = der::Decode::decode(nested)?;
        let public_exponent: der::asn1::UintRef = der::Decode::decode(nested)?;
        Ok(RsaPublicKey {
            modulus: modulus.as_bytes().to_vec(),
            public_exponent: public_exponent.as_bytes().to_vec(),
        })
    })?;
    der::Reader::finish(reader, key)
}

/// Relies on `der::asn1::UintRef` and `der::asn1::SequenceOf` encoding: the
/// output is the canonical DER encoding of the two fields, and when the
/// fields are already minimal it decodes back to exactly those fields. For
/// non-empty fields the output decodes back to a well-formed structure; an
/// empty field encodes as a zero-length `INTEGER`, which decoding rejects.
/// The result is a function of the fields alone.
#[verifier::external_body]
pub(crate) fn der_encode_key(key: &RsaPublicKey) -> (r: Result<Vec<u8>, der::Error>)
    ensures
        match r {
            Ok(bytes) => der_encoded(key.modulus@, key.public_exponent@) == Some(bytes@)
                && bytes@.len() > 0
                && (key.modulus@.len() > 0 && key.public_exponent@.len() > 0
                    ==> der_decoded(bytes@) is Some)
                && (key.is_minimal() ==> der_decoded(bytes@) == Some(
                    (key.modulus@, key.public_exponent@),
                )),
            Err(_) => der_encoded(key.modulus@, key.public_exponent@) is None,
        },
{
    let modulus = der::asn1::UintRef::new(key.modulus.as_slice())?;
    let public_exponent = der::asn1::UintRef::new(key.public_exponent.as_slice())?;
    let mut sequence: der::asn1::SequenceOf<der::asn1::UintRef, 2> =
        der::asn1::SequenceOf::new();
    sequence.add(modulus)?;
    sequence.add(public_exponent)?;
    der::Encode::to_der(&sequence)
}

} // verus!
