//! Textual envelope adapter: the boundary to the external PEM codec.
//!
//! The `pem-rfc7468` crate decodes a delimited/base64 text block into a type
//! label and the embedded binary payload, and encodes a label and payload
//! into such a block. Both results are pure functions of the arguments,
//! named here by uninterpreted spec functions.

use vstd::prelude::*;

verus! {

/// Payloads up to this length are guaranteed to encode into an envelope;
/// it keeps every length computation of the envelope codec in `usize`.
pub const MAX_PEM_PAYLOAD_LEN: usize = 0x1000_0000;

/// What decoding a text block as a PEM envelope yields:
/// `Some((label, payload))` when the text is a well-formed envelope,
/// `None` otherwise.
pub uninterp spec fn pem_decoded(text: Seq<char>) -> Option<(Seq<char>, Seq<u8>)>;

/// What encoding a label and payload as a PEM envelope yields:
/// `Some(text)` on success, `None` when no envelope can be produced.
pub uninterp spec fn pem_encoded(label: Seq<char>, payload: Seq<u8>) -> Option<Seq<char>>;

#[verifier::external_type_specification]
#[verifier::external_body]
pub struct ExPemError(pem_rfc7468::Error);

/// Relies on `pem_rfc7468::decode_vec`: it parses a PEM document under RFC
/// 7468's strict grammar, returning its type label and base64-decoded
/// payload, and fails on anything else. The result is a function of the
/// text alone.
#[verifier::external_body]
pub(crate) fn pem_decode(text: &str) -> (r: Result<(String, Vec<u8>), pem_rfc7468::Error>)
    ensures
        match r {
            Ok(p) => pem_decoded(text@) == Some((p.0@, p.1@)),
            Err(_) => pem_decoded(text@) is None,
        },
{
    let (label, payload) = pem_rfc7468::decode_vec(text.as_bytes())?;
    Ok((label.to_owned(), payload))
}

/// Relies on `pem_rfc7468::encode_string`: it produces the strict RFC 7468
/// PEM document for the given label and payload. For the one label this
/// library uses and a non-empty payload, `decode_vec` recovers exactly that
/// label and payload from the produced text; the claim is made for no other
/// input, since the strict decoder rejects an empty envelope body and also
/// some labels that the encoder accepts (those with leading whitespace).
/// Encoding fails on an invalid label, and otherwise only when a length
/// computation overflows `usize`, which cannot happen for payloads within
/// [`MAX_PEM_PAYLOAD_LEN`]. The result is a function of the label and
/// payload alone.
#[verifier::external_body]
pub(crate) fn pem_encode(label: &str, payload: &[u8]) -> (r: Result<
    String,
    pem_rfc7468::Error,
>)
    ensures
        match r {
            Ok(text) => pem_encoded(label@, payload@) == Some(text@)
                && (label@ == "RSA PUBLIC KEY"@ && payload@.len() > 0 ==> pem_decoded(text@)
                    == Some((label@, payload@))),
            Err(_) => pem_encoded(label@, payload@) is None,
        },
        label@ == "RSA PUBLIC KEY"@ && payload@.len() <= MAX_PEM_PAYLOAD_LEN ==> r is Ok,
{
    pem_rfc7468::encode_string(label, pem_rfc7468::LineEnding::LF, payload)
}

} // verus!
