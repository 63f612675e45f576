//! XSTREAM: hybrid public-key streaming encryption combining X25519
//! Diffie-Hellman with an ephemeral key, HKDF-SHA-256 key derivation, and
//! the STREAM construction over a misuse-resistant AEAD (AES-SIV or
//! AES-PMAC-SIV).

pub mod error;
pub mod kdf;
pub mod keys;
pub mod siv;
pub mod x25519_hkdf;

pub use error::{Error, InvalidKeyLength};
pub use kdf::derive_key;
pub use keys::{PrivateKey, PublicKey};
pub use x25519_hkdf::{Algorithm, X25519HkdfDecryptor, X25519HkdfEncryptor};
