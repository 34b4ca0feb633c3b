//! The vault orchestrator: sealing plaintext into a file image and opening a
//! file image back into plaintext.
//!
//! These functions compose key derivation, the cipher and the frame codec.
//! They go from bytes to bytes: turning a typed value into plaintext bytes
//! and moving file images to and from disk are the caller's side of the
//! boundary.

use vstd::prelude::*;

use crate::cipher::{aes256gcm_open, aes256gcm_seal, decrypt, encrypt_with_nonce, os_random_bytes, MAX_PLAINTEXT_BYTES, TAG_SIZE};
use crate::content::wipe_bytes;
use crate::encrypted_content::EncryptedContent;
use crate::error::SerdeVaultError;
use crate::format::{
    decode, encode, encode_spec, frame_ciphertext, frame_m_cost, frame_nonce, frame_p_cost,
    frame_salt, frame_t_cost, lemma_frame_round_trip, magic_seq, well_formed_frame, VaultHeader,
    FORMAT_VERSION, HEADER_SIZE, NONCE_SIZE, SALT_SIZE,
};
use crate::kdf::{argon2id_key, check_kdf_params, derive_key, kdf_params_valid, password_len_ok};
use vstd::string::StringSliceAdditionalSpecFns;

verus! {

/// What opening the file image `data` with `password` yields: the plaintext
/// when the frame is well formed, its stored cost parameters are valid, the
/// password is within the key-derivation limit, and the integrity tag
/// verifies under the key derived from the password and the stored salt;
/// nothing otherwise.
pub open spec fn opens_to(data: Seq<u8>, password: &str) -> Option<Seq<u8>> {
    if well_formed_frame(data) && kdf_params_valid(
        frame_m_cost(data),
        frame_t_cost(data),
        frame_p_cost(data),
    ) && password_len_ok(password) {
        aes256gcm_open(
            argon2id_key(
                password.spec_bytes(),
                frame_salt(data),
                frame_m_cost(data),
                frame_t_cost(data),
                frame_p_cost(data),
            ),
            frame_nonce(data),
            frame_ciphertext(data),
        )
    } else {
        None
    }
}

/// Seals `plaintext` into a vault file image using the given salt and nonce.
///
/// This is the deterministic half of `seal_bytes`: the image is a function
/// of its arguments alone, and assembly succeeds exactly when the cost
/// parameters are valid, the password is within the key-derivation limit and
/// the plaintext is within the cipher's limit.  The salt and nonce must come
/// from a cryptographically secure random source and never be reused - a
/// repeated nonce under one key breaks confidentiality and integrity - which
/// is why `seal_bytes` draws both itself.  The derived key is wiped before
/// returning.
pub fn seal_with_materials(
    plaintext: &[u8],
    password: &str,
    m_cost: u32,
    t_cost: u32,
    p_cost: u32,
    salt: Vec<u8>,
    nonce: Vec<u8>,
) -> (r: Result<Vec<u8>, SerdeVaultError>)
    requires
        salt@.len() == SALT_SIZE,
        nonce@.len() == NONCE_SIZE,
    ensures
        r is Ok <==> kdf_params_valid(m_cost, t_cost, p_cost) && password_len_ok(password)
            && plaintext@.len() <= MAX_PLAINTEXT_BYTES,
        r matches Ok(out) ==> ({
            &&& out@ == encode_spec(
                salt@,
                m_cost,
                t_cost,
                p_cost,
                nonce@,
                aes256gcm_seal(
                    argon2id_key(password.spec_bytes(), salt@, m_cost, t_cost, p_cost),
                    nonce@,
                    plaintext@,
                ),
            )
            &&& out@.len() == HEADER_SIZE + plaintext@.len() + TAG_SIZE
            &&& well_formed_frame(out@)
            &&& frame_m_cost(out@) == m_cost
            &&& frame_t_cost(out@) == t_cost
            &&& frame_p_cost(out@) == p_cost
            &&& opens_to(out@, password) == Some(plaintext@)
        }),
        r matches Err(SerdeVaultError::KdfError(_)) <==> !(kdf_params_valid(
            m_cost,
            t_cost,
            p_cost,
        ) && password_len_ok(password)),
        kdf_params_valid(m_cost, t_cost, p_cost) && password_len_ok(password) && plaintext@.len()
            > MAX_PLAINTEXT_BYTES ==> r matches Err(SerdeVaultError::EncryptionError(_)),
        r is Err ==> (r matches Err(SerdeVaultError::KdfError(_)) || r matches Err(
            SerdeVaultError::EncryptionError(_),
        )),
{
    let mut key = match derive_key(password, &salt, m_cost, t_cost, p_cost) {
        Ok(k) => k,
        Err(e) => { return Err(e) },
    };
    let encrypted = encrypt_with_nonce(plaintext, &key, &nonce);
    wipe_bytes(&mut key);
    let ciphertext = match encrypted {
        Ok(ct) => ct,
        Err(e) => { return Err(e) },
    };
    let ghost salt_view = salt@;
    let ghost nonce_view = nonce@;
    let ghost ct_view = ciphertext@;
    let header = VaultHeader { salt, m_cost, t_cost, p_cost, nonce };
    let payload = EncryptedContent::new(header, ciphertext);
    let out = encode(&payload.header, payload.ciphertext.as_slice());
    proof {
        lemma_frame_round_trip(salt_view, m_cost, t_cost, p_cost, nonce_view, ct_view);
    }
    Ok(out)
}

/// Seals `plaintext` under `password` into a complete vault file image.
///
/// A fresh random salt and nonce are drawn on every call, the key is derived
/// with the given cost parameters and wiped before returning, and the
/// resulting image opens under the same password to exactly the plaintext
/// that was sealed.  It fails with `KdfError` when the cost parameters are
/// invalid or the password exceeds the derivation limit, and with
/// `EncryptionError` when the random source fails or the plaintext exceeds
/// the cipher's limit.
pub fn seal_bytes(plaintext: &[u8], password: &str, m_cost: u32, t_cost: u32, p_cost: u32) -> (r:
    Result<Vec<u8>, SerdeVaultError>)
    ensures
        r matches Ok(out) ==> ({
            &&& out@.len() == HEADER_SIZE + plaintext@.len() + TAG_SIZE
            &&& well_formed_frame(out@)
            &&& frame_m_cost(out@) == m_cost
            &&& frame_t_cost(out@) == t_cost
            &&& frame_p_cost(out@) == p_cost
            &&& opens_to(out@, password) == Some(plaintext@)
        }),
        r matches Err(SerdeVaultError::KdfError(_)) <==> !(kdf_params_valid(
            m_cost,
            t_cost,
            p_cost,
        ) && password_len_ok(password)),
        kdf_params_valid(m_cost, t_cost, p_cost) && password_len_ok(password) && plaintext@.len()
            > MAX_PLAINTEXT_BYTES ==> r matches Err(SerdeVaultError::EncryptionError(_)),
        r is Err ==> (r matches Err(SerdeVaultError::KdfError(_)) || r matches Err(
            SerdeVaultError::EncryptionError(_),
        )),
{
    if !check_kdf_params(m_cost, t_cost, p_cost) {
        return Err(SerdeVaultError::KdfError(("invalid cost parameters").to_owned()));
    }
    if password.as_bytes().len() as u64 > crate::kdf::MAX_PASSWORD_BYTES {
        return Err(SerdeVaultError::KdfError(("password too long").to_owned()));
    }
    let salt = os_random_bytes(SALT_SIZE)?;
    let nonce = os_random_bytes(NONCE_SIZE)?;
    seal_with_materials(plaintext, password, m_cost, t_cost, p_cost, salt, nonce)
}

/// Opens a vault file image with `password` and returns the plaintext.
///
/// Validation happens in order: frame length and magic (`InvalidFormat`),
/// version byte (`UnsupportedVersion`), the cost parameters stored in the
/// file (`KdfError`), and only then the integrity tag under the derived key,
/// whose every mismatch - wrong password, corrupted or truncated ciphertext -
/// is the one undifferentiated `DecryptionFailed`.  The derived key is wiped
/// before returning; the caller owns the returned plaintext and should wipe
/// it after use.  The image itself is never altered.
pub fn open_bytes(data: &[u8], password: &str) -> (r: Result<Vec<u8>, SerdeVaultError>)
    ensures
        r matches Ok(pt) ==> opens_to(data@, password) == Some(pt@),
        r is Err ==> opens_to(data@, password) is None,
        data@.len() < HEADER_SIZE ==> r matches Err(SerdeVaultError::InvalidFormat(_)),
        data@.len() >= HEADER_SIZE && data@.subrange(0, 4) != magic_seq() ==> r matches Err(
            SerdeVaultError::InvalidFormat(_),
        ),
        data@.len() >= HEADER_SIZE && data@.subrange(0, 4) == magic_seq() && data@[4]
            != FORMAT_VERSION ==> (r matches Err(SerdeVaultError::UnsupportedVersion(v)) && v
            == data@[4]),
        well_formed_frame(data@) && !(kdf_params_valid(
            frame_m_cost(data@),
            frame_t_cost(data@),
            frame_p_cost(data@),
        ) && password_len_ok(password)) ==> r matches Err(SerdeVaultError::KdfError(_)),
        well_formed_frame(data@) && kdf_params_valid(
            frame_m_cost(data@),
            frame_t_cost(data@),
            frame_p_cost(data@),
        ) && password_len_ok(password) && opens_to(data@, password) is None ==> r matches Err(
            SerdeVaultError::DecryptionFailed,
        ),
        well_formed_frame(data@) && kdf_params_valid(
            frame_m_cost(data@),
            frame_t_cost(data@),
            frame_p_cost(data@),
        ) && password_len_ok(password) && data@.len() < HEADER_SIZE + TAG_SIZE ==> r matches Err(
            SerdeVaultError::DecryptionFailed,
        ),
{
    let (header, ciphertext) = match decode(data) {
        Ok(h_ct) => h_ct,
        Err(e) => { return Err(e) },
    };
    let mut key = match derive_key(password, &header.salt, header.m_cost, header.t_cost,
        header.p_cost) {
        Ok(k) => k,
        Err(e) => { return Err(e) },
    };
    let result = decrypt(ciphertext.as_slice(), &key, &header.nonce);
    wipe_bytes(&mut key);
    result
}

} // verus!
