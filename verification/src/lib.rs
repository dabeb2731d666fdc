//! Validated container for a PKCS#1 `RSA PUBLIC KEY` structure.
//!
//! The central type is [`RsaPublicKeyDocument`]: an owned DER byte buffer
//! that is guaranteed, by construction, to parse as an RSA public key.
//! Conversions are provided between the binary (DER) encoding, the textual
//! (PEM) envelope, and a typed in-memory view of the key fields.

pub mod codec;
pub mod document;
pub mod envelope;
pub mod error;
pub mod key;

pub use crate::document::RsaPublicKeyDocument;
pub use crate::error::DocumentError;
pub use crate::key::RsaPublicKey;
