//! Behavioural tests for the RSA public key document.

use pkcs1::{DocumentError, RsaPublicKey, RsaPublicKeyDocument};

/// DER encoding of the minimal key: SEQUENCE { INTEGER 3, INTEGER 65537 }.
fn minimal_key_der() -> Vec<u8> {
    vec![0x30, 0x08, 0x02, 0x01, 0x03, 0x02, 0x03, 0x01, 0x00, 0x01]
}

#[test]
fn from_der_preserves_input_bytes() {
    let der = minimal_key_der();
    let doc = RsaPublicKeyDocument::from_der(&der).unwrap();
    assert_eq!(doc.as_bytes(), der.as_slice());
}

#[test]
fn from_der_vec_preserves_input_bytes() {
    let der = minimal_key_der();
    let doc = RsaPublicKeyDocument::from_der_vec(der.clone()).unwrap();
    assert_eq!(doc.as_bytes(), der.as_slice());
}

#[test]
fn public_key_fields() {
    let doc = RsaPublicKeyDocument::from_der(&minimal_key_der()).unwrap();
    let key = doc.public_key();
    assert_eq!(key.modulus, vec![0x03]);
    assert_eq!(key.public_exponent, vec![0x01, 0x00, 0x01]);
}

#[test]
fn from_der_rejects_truncated() {
    let der = minimal_key_der();
    for n in 0..der.len() {
        let r = RsaPublicKeyDocument::from_der(&der[..n]);
        assert_eq!(r.unwrap_err(), DocumentError::Malformed);
    }
}

#[test]
fn from_der_rejects_wrong_tag() {
    let mut der = minimal_key_der();
    der[0] = 0x31; // SET instead of SEQUENCE
    let r = RsaPublicKeyDocument::from_der(&der);
    assert_eq!(r.unwrap_err(), DocumentError::Malformed);
}

#[test]
fn from_der_rejects_wrong_length_prefix() {
    let mut der = minimal_key_der();
    der[1] = 0x09; // SEQUENCE length does not match its contents
    let r = RsaPublicKeyDocument::from_der(&der);
    assert_eq!(r.unwrap_err(), DocumentError::Malformed);
}

#[test]
fn from_der_rejects_trailing_byte() {
    let mut der = minimal_key_der();
    der.push(0x00);
    let r = RsaPublicKeyDocument::from_der(&der);
    assert_eq!(r.unwrap_err(), DocumentError::Malformed);
}

#[test]
fn from_der_rejects_non_minimal_integer() {
    // INTEGER 3 padded to two bytes: not the canonical encoding.
    let der = vec![0x30, 0x09, 0x02, 0x02, 0x00, 0x03, 0x02, 0x03, 0x01, 0x00, 0x01];
    let r = RsaPublicKeyDocument::from_der(&der);
    assert_eq!(r.unwrap_err(), DocumentError::Malformed);
}

#[test]
fn from_der_rejects_missing_exponent() {
    // SEQUENCE holding a single INTEGER.
    let der = vec![0x30, 0x03, 0x02, 0x01, 0x03];
    let r = RsaPublicKeyDocument::from_der(&der);
    assert_eq!(r.unwrap_err(), DocumentError::Malformed);
}

#[test]
fn to_pem_exact_text() {
    let doc = RsaPublicKeyDocument::from_der(&minimal_key_der()).unwrap();
    let text = doc.to_pem();
    assert_eq!(
        text,
        "-----BEGIN RSA PUBLIC KEY-----\nMAgCAQMCAwEAAQ==\n-----END RSA PUBLIC KEY-----\n"
    );
}

#[test]
fn pem_round_trip() {
    let doc = RsaPublicKeyDocument::from_der(&minimal_key_der()).unwrap();
    let text = doc.to_pem();
    assert!(text.starts_with("-----BEGIN RSA PUBLIC KEY-----"));
    let back = RsaPublicKeyDocument::from_pem(&text).unwrap();
    assert_eq!(back.as_bytes(), doc.as_bytes());
}

#[test]
fn from_str_parses_pem() {
    let doc = RsaPublicKeyDocument::from_der(&minimal_key_der()).unwrap();
    let back: RsaPublicKeyDocument = doc.to_pem().parse().unwrap();
    assert_eq!(back.as_bytes(), doc.as_bytes());
}

#[test]
fn from_pem_rejects_foreign_label() {
    // The payload alone is a valid key, but the label names another kind.
    let text = pem_rfc7468::encode_string(
        "RSA PRIVATE KEY",
        pem_rfc7468::LineEnding::LF,
        &minimal_key_der(),
    )
    .unwrap();
    let r = RsaPublicKeyDocument::from_pem(&text);
    assert_eq!(r.unwrap_err(), DocumentError::EnvelopeLabelMismatch);
}

#[test]
fn from_pem_rejects_unparsable_envelope() {
    let r = RsaPublicKeyDocument::from_pem("not a pem document");
    assert_eq!(r.unwrap_err(), DocumentError::EnvelopeDecodeFailure);
}

#[test]
fn from_pem_rejects_malformed_payload() {
    // A well-formed envelope with the right label around bytes that are
    // not a DER-encoded key.
    let text = pem_rfc7468::encode_string(
        "RSA PUBLIC KEY",
        pem_rfc7468::LineEnding::LF,
        &[0xde, 0xad, 0xbe, 0xef],
    )
    .unwrap();
    let r = RsaPublicKeyDocument::from_pem(&text);
    assert_eq!(r.unwrap_err(), DocumentError::Malformed);
}

#[test]
fn from_typed_view_canonical_encoding() {
    let key = RsaPublicKey { modulus: vec![0x03], public_exponent: vec![0x01, 0x00, 0x01] };
    let doc = RsaPublicKeyDocument::from_typed_view(&key).unwrap();
    assert_eq!(doc.as_bytes(), minimal_key_der().as_slice());

    // The recovered view is field-equal to the one encoded.
    let key2 = doc.public_key();
    assert_eq!(key2.modulus, key.modulus);
    assert_eq!(key2.public_exponent, key.public_exponent);

    // Re-encoding the recovered view is byte-identical.
    let doc2 = RsaPublicKeyDocument::from_typed_view(&key2).unwrap();
    assert_eq!(doc2.as_bytes(), doc.as_bytes());
}

#[test]
fn from_typed_view_adds_sign_byte() {
    // A modulus with its high bit set needs a 0x00 prefix inside the DER
    // INTEGER; the typed view itself stays unprefixed.
    let key = RsaPublicKey { modulus: vec![0xc0, 0x01], public_exponent: vec![0x01, 0x00, 0x01] };
    let doc = RsaPublicKeyDocument::from_typed_view(&key).unwrap();
    assert_eq!(
        doc.as_bytes(),
        &[0x30, 0x0a, 0x02, 0x03, 0x00, 0xc0, 0x01, 0x02, 0x03, 0x01, 0x00, 0x01]
    );
    let key2 = doc.public_key();
    assert_eq!(key2.modulus, vec![0xc0, 0x01]);
    assert_eq!(key2.public_exponent, vec![0x01, 0x00, 0x01]);
}

#[test]
fn from_typed_view_strips_leading_zeroes() {
    // A non-minimal view still encodes, to the canonical bytes of the
    // same numeric values.
    let key = RsaPublicKey {
        modulus: vec![0x00, 0x00, 0x03],
        public_exponent: vec![0x00, 0x01, 0x00, 0x01],
    };
    let doc = RsaPublicKeyDocument::from_typed_view(&key).unwrap();
    assert_eq!(doc.as_bytes(), minimal_key_der().as_slice());
}

#[test]
fn foreign_label_reported_before_payload_check() {
    // The label mismatch is reported even though the payload is also
    // malformed: the label is checked before binary validation.
    let text = pem_rfc7468::encode_string(
        "RSA PRIVATE KEY",
        pem_rfc7468::LineEnding::LF,
        &[0xde, 0xad],
    )
    .unwrap();
    let r = RsaPublicKeyDocument::from_pem(&text);
    assert_eq!(r.unwrap_err(), DocumentError::EnvelopeLabelMismatch);
}

#[test]
fn empty_payload_envelope_does_not_decode() {
    // The strict envelope grammar has no room for an empty body: such a
    // text fails at envelope decoding, before any label or DER check.
    let text =
        pem_rfc7468::encode_string("RSA PUBLIC KEY", pem_rfc7468::LineEnding::LF, &[]).unwrap();
    let r = RsaPublicKeyDocument::from_pem(&text);
    assert_eq!(r.unwrap_err(), DocumentError::EnvelopeDecodeFailure);
}

#[test]
fn clone_preserves_bytes() {
    let doc = RsaPublicKeyDocument::from_der(&minimal_key_der()).unwrap();
    let copy = doc.clone();
    assert_eq!(copy.as_bytes(), doc.as_bytes());
}

#[test]
fn from_typed_view_rejects_empty_modulus() {
    // An empty field has no decodable DER encoding, so no document may
    // come of it: construction reports the failure instead.
    let key = RsaPublicKey { modulus: vec![], public_exponent: vec![0x01, 0x00, 0x01] };
    let r = RsaPublicKeyDocument::from_typed_view(&key);
    assert_eq!(r.unwrap_err(), DocumentError::EncodingFailure);
}

#[test]
fn from_typed_view_rejects_empty_exponent() {
    let key = RsaPublicKey { modulus: vec![0x03], public_exponent: vec![] };
    let r = RsaPublicKeyDocument::from_typed_view(&key);
    assert_eq!(r.unwrap_err(), DocumentError::EncodingFailure);
}
