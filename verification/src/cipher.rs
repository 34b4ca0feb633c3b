//! Authenticated encryption with AES-256-GCM.

use vstd::prelude::*;

use aes_gcm::aead::{Aead, KeyInit};
use rand::RngCore;

use crate::error::SerdeVaultError;
use crate::format::NONCE_SIZE;
use crate::kdf::KEY_SIZE;

verus! {

/// Integrity-tag length in bytes: the 128-bit GCM tag appended to the
/// ciphertext.
pub const TAG_SIZE: usize = 16;

/// The largest plaintext, in bytes, the cipher accepts (2^36).
pub const MAX_PLAINTEXT_BYTES: u64 = 0x10_0000_0000;

/// The AES-256-GCM ciphertext, integrity tag appended, of a plaintext under
/// the given key and nonce.  It is a function of these inputs alone.
pub uninterp spec fn aes256gcm_seal(key: Seq<u8>, nonce: Seq<u8>, plaintext: Seq<u8>) -> Seq<u8>;

/// What AES-256-GCM decryption yields on a ciphertext-with-tag under the
/// given key and nonce: the plaintext when the tag verifies, nothing
/// otherwise.  It is a function of these inputs alone.
pub uninterp spec fn aes256gcm_open(key: Seq<u8>, nonce: Seq<u8>, ciphertext: Seq<u8>) -> Option<
    Seq<u8>,
>;

/// Relies on aes_gcm's `Aes256Gcm::encrypt`: it fails only on a plaintext
/// over 2^36 bytes; on success the output is the ciphertext of the same
/// length as the plaintext with the 16-byte tag appended, determined by key,
/// nonce and plaintext alone, and decrypting it under the same key and nonce
/// gives the plaintext back.
#[verifier::external_body]
fn aes256gcm_encrypt(plaintext: &[u8], key: &[u8], nonce: &[u8]) -> (r: Result<
    Vec<u8>,
    SerdeVaultError,
>)
    requires
        key@.len() == KEY_SIZE,
        nonce@.len() == NONCE_SIZE,
    ensures
        r is Ok <==> plaintext@.len() <= MAX_PLAINTEXT_BYTES,
        r matches Ok(ct) ==> ({
            &&& ct@ == aes256gcm_seal(key@, nonce@, plaintext@)
            &&& ct@.len() == plaintext@.len() + TAG_SIZE
            &&& aes256gcm_open(key@, nonce@, ct@) == Some(plaintext@)
        }),
        r is Err ==> r matches Err(SerdeVaultError::EncryptionError(_)),
{
    let cipher = aes_gcm::Aes256Gcm::new(aes_gcm::Key::<aes_gcm::Aes256Gcm>::from_slice(key));
    cipher.encrypt(aes_gcm::Nonce::from_slice(nonce), plaintext).map_err(
        |e| SerdeVaultError::EncryptionError(e.to_string()),
    )
}

/// Relies on aes_gcm's `Aes256Gcm::decrypt`: it returns the plaintext exactly
/// when the integrity tag verifies, a result determined by key, nonce and
/// ciphertext alone, and always fails on a ciphertext shorter than the
/// 16-byte tag.
#[verifier::external_body]
fn aes256gcm_decrypt(ciphertext: &[u8], key: &[u8], nonce: &[u8]) -> (r: Result<
    Vec<u8>,
    SerdeVaultError,
>)
    requires
        key@.len() == KEY_SIZE,
        nonce@.len() == NONCE_SIZE,
    ensures
        r matches Ok(pt) ==> aes256gcm_open(key@, nonce@, ciphertext@) == Some(pt@),
        r is Err ==> aes256gcm_open(key@, nonce@, ciphertext@) is None,
        r is Err ==> r matches Err(SerdeVaultError::DecryptionFailed),
        ciphertext@.len() < TAG_SIZE ==> r is Err,
{
    let cipher = aes_gcm::Aes256Gcm::new(aes_gcm::Key::<aes_gcm::Aes256Gcm>::from_slice(key));
    cipher.decrypt(aes_gcm::Nonce::from_slice(nonce), ciphertext).map_err(
        |_| SerdeVaultError::DecryptionFailed,
    )
}

/// Relies on rand's `OsRng::try_fill_bytes`: on success the buffer has the
/// requested length and came from the operating system's secure random
/// source.  Nothing is promised about the bytes themselves.
#[verifier::external_body]
pub(crate) fn os_random_bytes(n: usize) -> (r: Result<Vec<u8>, SerdeVaultError>)
    ensures
        r matches Ok(v) ==> v@.len() == n,
        r is Err ==> r matches Err(SerdeVaultError::EncryptionError(_)),
{
    let mut buf = vec![0u8; n];
    rand::rngs::OsRng.try_fill_bytes(&mut buf).map_err(
        |e| SerdeVaultError::EncryptionError(e.to_string()),
    )?;
    Ok(buf)
}

/// Encrypts `plaintext` with AES-256-GCM under `key` and the given nonce.
///
/// This is the deterministic half of `encrypt`: it succeeds exactly when the
/// plaintext is within the cipher's limit, and the ciphertext is a function
/// of key, nonce and plaintext alone.  The caller is responsible for nonce
/// freshness: encrypting twice under the same key and nonce breaks both
/// confidentiality and integrity, which is why `encrypt` draws the nonce
/// itself.
pub fn encrypt_with_nonce(plaintext: &[u8], key: &Vec<u8>, nonce: &Vec<u8>) -> (r: Result<
    Vec<u8>,
    SerdeVaultError,
>)
    requires
        key@.len() == KEY_SIZE,
        nonce@.len() == NONCE_SIZE,
    ensures
        r is Ok <==> plaintext@.len() <= MAX_PLAINTEXT_BYTES,
        r matches Ok(ct) ==> ({
            &&& ct@ == aes256gcm_seal(key@, nonce@, plaintext@)
            &&& ct@.len() == plaintext@.len() + TAG_SIZE
            &&& aes256gcm_open(key@, nonce@, ct@) == Some(plaintext@)
        }),
        r is Err ==> r matches Err(SerdeVaultError::EncryptionError(_)),
{
    aes256gcm_encrypt(plaintext, key.as_slice(), nonce.as_slice())
}

/// Encrypts `plaintext` with AES-256-GCM under `key` and a nonce drawn fresh
/// from the system's random source, and returns both.
///
/// Callers never supply the nonce, so two calls with an identical plaintext
/// and key are expected to differ; how different the two nonces are is up to
/// the random source, about which nothing is promised.
pub fn encrypt(plaintext: &[u8], key: &Vec<u8>) -> (r: Result<(Vec<u8>, Vec<u8>), SerdeVaultError>)
    requires
        key@.len() == KEY_SIZE,
    ensures
        r matches Ok(ct_nonce) ==> ({
            &&& ct_nonce.1@.len() == NONCE_SIZE
            &&& ct_nonce.0@ == aes256gcm_seal(key@, ct_nonce.1@, plaintext@)
            &&& ct_nonce.0@.len() == plaintext@.len() + TAG_SIZE
            &&& aes256gcm_open(key@, ct_nonce.1@, ct_nonce.0@) == Some(plaintext@)
        }),
        plaintext@.len() > MAX_PLAINTEXT_BYTES ==> r is Err,
        r is Err ==> r matches Err(SerdeVaultError::EncryptionError(_)),
{
    let nonce = os_random_bytes(NONCE_SIZE)?;
    let ciphertext = encrypt_with_nonce(plaintext, key, &nonce)?;
    Ok((ciphertext, nonce))
}

/// Decrypts an AES-256-GCM ciphertext-with-tag, verifying the tag first.
///
/// On any mismatch it fails with the undifferentiated `DecryptionFailed`:
/// whether the key was wrong or the bytes were corrupted is deliberately not
/// revealed.
pub fn decrypt(ciphertext: &[u8], key: &Vec<u8>, nonce: &Vec<u8>) -> (r: Result<
    Vec<u8>,
    SerdeVaultError,
>)
    requires
        key@.len() == KEY_SIZE,
        nonce@.len() == NONCE_SIZE,
    ensures
        r matches Ok(pt) ==> aes256gcm_open(key@, nonce@, ciphertext@) == Some(pt@),
        r is Err ==> aes256gcm_open(key@, nonce@, ciphertext@) is None,
        r is Err ==> r matches Err(SerdeVaultError::DecryptionFailed),
        ciphertext@.len() < TAG_SIZE ==> r is Err,
{
    aes256gcm_decrypt(ciphertext, key.as_slice(), nonce.as_slice())
}

} // verus!
