//! The validated document: an owned DER buffer that always parses.

use vstd::prelude::*;

use crate::codec::{der_decode_key, der_decoded, der_encode_key, der_encoded};
use crate::envelope::{pem_decode, pem_decoded, pem_encode, pem_encoded, MAX_PEM_PAYLOAD_LEN};
use crate::error::DocumentError;
use crate::key::RsaPublicKey;

verus! {

/// The envelope type label for an RSA public key document.
pub open spec fn pem_type_label() -> Seq<char> {
    "RSA PUBLIC KEY"@
}

/// What [`RsaPublicKeyDocument::from_pem`] accepts: the payload of an
/// envelope that decodes, carries the expected label, and holds
/// well-formed DER; `None` on every other text.
pub open spec fn from_pem_accepted(text: Seq<char>) -> Option<Seq<u8>> {
    match pem_decoded(text) {
        Some((label, payload)) => if label == pem_type_label() && der_decoded(payload) is Some {
            Some(payload)
        } else {
            None
        },
        None => None,
    }
}

/// Which error [`RsaPublicKeyDocument::from_pem`] reports on a rejected
/// text: an unparsable envelope and a foreign label are distinct errors,
/// and a label mismatch is reported before the payload is examined.
pub open spec fn from_pem_rejection(text: Seq<char>) -> DocumentError {
    match pem_decoded(text) {
        Some((label, payload)) => if label != pem_type_label() {
            DocumentError::EnvelopeLabelMismatch
        } else {
            DocumentError::Malformed
        },
        None => DocumentError::EnvelopeDecodeFailure,
    }
}

/// PKCS#1 `RSA PUBLIC KEY` document.
///
/// Storage for an RSA public key encoded as ASN.1 DER, with the invariant
/// that the contained bytes are well-formed: they parse successfully under
/// the binary codec adapter. Every constructor validates before the bytes
/// are accepted, and the document is immutable once constructed.
#[derive(Debug)]
pub struct RsaPublicKeyDocument {
    der: Vec<u8>,
}

impl Clone for RsaPublicKeyDocument {
    /// The clone holds the same bytes.
    fn clone(&self) -> (r: Self)
        ensures
            r@ == self@,
    {
        proof {
            use_type_invariant(self);
        }
        RsaPublicKeyDocument { der: vstd::slice::slice_to_vec(self.der.as_slice()) }
    }
}

impl View for RsaPublicKeyDocument {
    type V = Seq<u8>;

    /// A document is its byte sequence.
    closed spec fn view(&self) -> Seq<u8> {
        self.der@
    }
}

impl RsaPublicKeyDocument {
    /// The stored bytes decode successfully; in particular they are not
    /// empty, so they always fit in a textual envelope body.
    #[verifier::type_invariant]
    spec fn well_formed(&self) -> bool {
        der_decoded(self.der@) is Some && self.der@.len() > 0
    }

    /// Parse the [`RsaPublicKey`] contained in this document.
    ///
    /// Always succeeds: the invariant guarantees decodability. The view is
    /// re-derived from the bytes on every call; nothing is cached.
    pub fn public_key(&self) -> (key: RsaPublicKey)
        ensures
            der_decoded(self@) == Some((key.modulus@, key.public_exponent@)),
            key.is_minimal(),
    {
        proof {
            use_type_invariant(self);
        }
        match der_decode_key(self.der.as_slice()) {
            Ok(key) => key,
            Err(_) => vstd::pervasive::unreached(),
        }
    }

    /// Parse a document from ASN.1 DER bytes.
    ///
    /// Decoding is run purely for validation: on success the caller's bytes
    /// are stored unchanged, never normalized or re-encoded.
    pub fn from_der(bytes: &[u8]) -> (r: Result<Self, DocumentError>)
        ensures
            match r {
                Ok(d) => d@ == bytes@ && der_decoded(bytes@) is Some,
                Err(e) => e == DocumentError::Malformed && der_decoded(bytes@) is None,
            },
    {
        match der_decode_key(bytes) {
            Ok(_) => Ok(RsaPublicKeyDocument { der: vstd::slice::slice_to_vec(bytes) }),
            Err(_) => Err(DocumentError::Malformed),
        }
    }

    /// Parse a document from an owned DER byte buffer, taking the buffer as
    /// storage when it validates.
    pub fn from_der_vec(bytes: Vec<u8>) -> (r: Result<Self, DocumentError>)
        ensures
            match r {
                Ok(d) => d@ == bytes@ && der_decoded(bytes@) is Some,
                Err(e) => e == DocumentError::Malformed && der_decoded(bytes@) is None,
            },
    {
        match der_decode_key(bytes.as_slice()) {
            Ok(_) => Ok(RsaPublicKeyDocument { der: bytes }),
            Err(_) => Err(DocumentError::Malformed),
        }
    }

    /// Parse a document from a PEM-encoded text block.
    ///
    /// The envelope must carry the label `RSA PUBLIC KEY`; a foreign label
    /// is rejected before the payload bytes are examined, with an error
    /// distinct from a malformed payload.
    pub fn from_pem(s: &str) -> (r: Result<Self, DocumentError>)
        ensures
            match r {
                Ok(d) => from_pem_accepted(s@) == Some(d@),
                Err(e) => from_pem_accepted(s@) is None && e == from_pem_rejection(s@),
            },
    {
        let (label, payload) = match pem_decode(s) {
            Ok(p) => p,
            Err(_) => {
                return Err(DocumentError::EnvelopeDecodeFailure);
            },
        };
        let expected: String = "RSA PUBLIC KEY".to_owned();
        if label == expected {
            Self::from_der_vec(payload)
        } else {
            Err(DocumentError::EnvelopeLabelMismatch)
        }
    }

    /// Serialize this document as a PEM-encoded text block with the label
    /// `RSA PUBLIC KEY`.
    ///
    /// The produced text decodes back to exactly this document's bytes.
    pub fn to_pem(&self) -> (text: String)
        requires
            self@.len() <= MAX_PEM_PAYLOAD_LEN,
        ensures
            pem_encoded(pem_type_label(), self@) == Some(text@),
            pem_decoded(text@) == Some((pem_type_label(), self@)),
            der_decoded(self@) is Some,
    {
        proof {
            use_type_invariant(self);
        }
        match pem_encode("RSA PUBLIC KEY", self.der.as_slice()) {
            Ok(text) => text,
            Err(_) => vstd::pervasive::unreached(),
        }
    }

    /// Build a document from a typed key view by serializing it to
    /// canonical DER.
    ///
    /// This is the sole path that produces bytes not supplied by a caller.
    /// For a view in minimal form — in particular any view produced by
    /// decoding — re-decoding the result yields exactly the same fields.
    /// A view with an empty field has no decodable encoding and is
    /// rejected before serialization.
    pub fn from_typed_view(key: &RsaPublicKey) -> (r: Result<Self, DocumentError>)
        ensures
            match r {
                Ok(d) => der_encoded(key.modulus@, key.public_exponent@) == Some(d@)
                    && key.modulus@.len() > 0 && key.public_exponent@.len() > 0
                    && der_decoded(d@) is Some
                    && (key.is_minimal() ==> der_decoded(d@) == Some(
                        (key.modulus@, key.public_exponent@),
                    )),
                Err(e) => e == DocumentError::EncodingFailure
                    && (key.modulus@.len() == 0 || key.public_exponent@.len() == 0
                        || der_encoded(key.modulus@, key.public_exponent@) is None),
            },
    {
        if key.modulus.len() == 0 || key.public_exponent.len() == 0 {
            return Err(DocumentError::EncodingFailure);
        }
        match der_encode_key(key) {
            Ok(bytes) => Ok(RsaPublicKeyDocument { der: bytes }),
            Err(_) => Err(DocumentError::EncodingFailure),
        }
    }

    /// Borrow the document's DER bytes.
    pub fn as_bytes(&self) -> (bytes: &[u8])
        ensures
            bytes@ == self@,
    {
        self.der.as_slice()
    }
}

/// Textual round trip: a text block whose envelope decodes to the expected
/// label and a well-formed payload — as the ensures of [`RsaPublicKeyDocument::to_pem`]
/// guarantee of the text it produces from any document — is accepted by
/// [`RsaPublicKeyDocument::from_pem`] and yields exactly that payload.
pub proof fn lemma_text_round_trip(text: Seq<char>, payload: Seq<u8>)
    requires
        pem_decoded(text) == Some((pem_type_label(), payload)),
        der_decoded(payload) is Some,
    ensures
        from_pem_accepted(text) == Some(payload),
{
}

/// Canonical encoding idempotence: when two key fields serialize to some
/// canonical bytes and those bytes decode back to the same fields — as the
/// ensures of [`RsaPublicKeyDocument::from_typed_view`] guarantee for every
/// minimal view — then re-encoding the view recovered from those bytes
/// reproduces the bytes exactly.
pub proof fn lemma_canonical_idempotence(modulus: Seq<u8>, public_exponent: Seq<u8>, bytes: Seq<u8>)
    requires
        der_encoded(modulus, public_exponent) == Some(bytes),
        der_decoded(bytes) == Some((modulus, public_exponent)),
    ensures
        der_encoded(der_decoded(bytes).unwrap().0, der_decoded(bytes).unwrap().1) == Some(bytes),
{
}

impl core::str::FromStr for RsaPublicKeyDocument {
    type Err = DocumentError;

    /// Parse a document from PEM text.
    fn from_str(s: &str) -> Result<Self, DocumentError> {
        Self::from_pem(s)
    }
}

} // verus!
