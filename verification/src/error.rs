//! The error taxonomy of the vault.

use vstd::prelude::*;

verus! {

/// Every failure a vault operation can report.
///
/// `DecryptionFailed` is deliberately carrying no detail: a wrong password, a
/// corrupted ciphertext and a truncated ciphertext are indistinguishable to
/// the caller, so that a failure does not help an attacker confirm a partial
/// guess.
#[derive(Debug)]
pub enum SerdeVaultError {
    /// A filesystem access failed; the payload is the I/O error's message.
    IoError(String),
    /// The external codec could not turn the value into bytes.
    SerializationError(String),
    /// The external codec could not turn the decrypted bytes back into a value.
    DeserializationError(String),
    /// The cipher refused its input (oversized plaintext, failed random source).
    EncryptionError(String),
    /// Authentication-tag verification failed: wrong password or corrupted vault.
    DecryptionFailed,
    /// Invalid cost parameters, or the key-derivation primitive failed.
    KdfError(String),
    /// Structurally malformed vault bytes: too short, or wrong magic bytes.
    InvalidFormat(String),
    /// A well-formed header whose version byte this build does not recognize.
    UnsupportedVersion(u8),
}

impl SerdeVaultError {
    /// A human-readable description of the error kind.
    ///
    /// The message never contains plaintext or key material.
    pub fn message(&self) -> (r: String)
    {
        match self {
            SerdeVaultError::IoError(s) => concat_label("I/O error: ", s),
            SerdeVaultError::SerializationError(s) => concat_label("Serialization error: ", s),
            SerdeVaultError::DeserializationError(s) => concat_label(
                "Deserialization error: ",
                s,
            ),
            SerdeVaultError::EncryptionError(s) => concat_label("Encryption error: ", s),
            SerdeVaultError::DecryptionFailed => (
                "Decryption failed - wrong password or corrupted vault"
            ).to_owned(),
            SerdeVaultError::KdfError(s) => concat_label("Key derivation error: ", s),
            SerdeVaultError::InvalidFormat(s) => concat_label("Invalid vault format: ", s),
            SerdeVaultError::UnsupportedVersion(_) => ("Unsupported vault version").to_owned(),
        }
    }
}

/// Joins an error-kind label with its detail text.
fn concat_label(label: &str, detail: &String) -> (r: String)
{
    let mut out = label.to_owned();
    out.append(detail.as_str());
    out
}

} // verus!
