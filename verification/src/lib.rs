//! Password-protected storage of byte blobs in a single vault file.
//!
//! The library covers the cryptographic pipeline: Argon2id key derivation,
//! AES-256-GCM authenticated encryption, and the binary framing of a vault
//! file.  Serialization of typed values and all file I/O live outside, in the
//! callers; the functions here go from plain bytes to plain bytes, with
//! contracts that pin down the on-disk format and the error taxonomy.

pub mod error;
pub mod format;
pub mod kdf;
pub mod cipher;
pub mod content;
pub mod encrypted_content;
pub mod vault;

pub use error::SerdeVaultError;
