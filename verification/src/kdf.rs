//! Password-based key derivation with Argon2id.

use vstd::prelude::*;
use vstd::string::StringSliceAdditionalSpecFns;

use crate::error::SerdeVaultError;
use crate::format::SALT_SIZE;

verus! {

/// Derived key length in bytes: a 256-bit key for AES-256-GCM.
pub const KEY_SIZE: usize = 32;

/// Default Argon2id memory cost in KiB (64 MiB of working memory).
pub const ARGON2_M_COST: u32 = 65536;

/// Default Argon2id iteration count.
pub const ARGON2_T_COST: u32 = 3;

/// Default Argon2id degree of parallelism.
pub const ARGON2_P_COST: u32 = 1;

/// The longest password, in bytes, that the key-derivation primitive accepts.
pub const MAX_PASSWORD_BYTES: u64 = 0xffff_ffff;

/// The cost parameters that Argon2id accepts: at least 8 KiB of memory and
/// 8 KiB per lane, at least one iteration, and between 1 and 2^24 - 1 lanes.
pub open spec fn kdf_params_valid(m_cost: u32, t_cost: u32, p_cost: u32) -> bool {
    &&& m_cost >= 8
    &&& m_cost >= 8 * p_cost
    &&& t_cost >= 1
    &&& 1 <= p_cost <= 0xff_ffff
}

/// The password fits within the key-derivation primitive's input limit.
pub open spec fn password_len_ok(password: &str) -> bool {
    password.spec_bytes().len() <= MAX_PASSWORD_BYTES
}

/// The 32-byte Argon2id digest of a password and salt under the given cost
/// parameters.  The digest is a function of these inputs alone.
pub uninterp spec fn argon2id_key(
    password: Seq<u8>,
    salt: Seq<u8>,
    m_cost: u32,
    t_cost: u32,
    p_cost: u32,
) -> Seq<u8>;

/// Relies on argon2's `Params::new` and `Argon2::hash_password_into`
/// (Argon2id, version 0x13): under valid cost parameters, a 32-byte salt and
/// a password no longer than 2^32 - 1 bytes, hashing cannot fail, and the
/// 32-byte digest depends on nothing but these inputs.
#[verifier::external_body]
fn argon2id_hash(password: &[u8], salt: &[u8], m_cost: u32, t_cost: u32, p_cost: u32) -> (r: Vec<
    u8,
>)
    requires
        kdf_params_valid(m_cost, t_cost, p_cost),
        salt@.len() == SALT_SIZE,
        password@.len() <= MAX_PASSWORD_BYTES,
    ensures
        r@ == argon2id_key(password@, salt@, m_cost, t_cost, p_cost),
        r@.len() == KEY_SIZE,
{
    let params = argon2::Params::new(m_cost, t_cost, p_cost, Some(KEY_SIZE))
        .expect("cost parameters were validated");
    let argon2 = argon2::Argon2::new(argon2::Algorithm::Argon2id, argon2::Version::V0x13, params);
    let mut key = vec![0u8; KEY_SIZE];
    argon2.hash_password_into(password, salt, &mut key)
        .expect("inputs were validated");
    key
}

/// Derives a 256-bit key from the password and salt using Argon2id.
///
/// Derivation is deterministic: the same password, salt and cost parameters
/// always yield the same key.  It succeeds exactly when the cost parameters
/// are valid and the password fits the primitive's input limit; any byte
/// sequence, including the empty one, is accepted as a password.  The caller
/// owns the returned secret material and should wipe it after use.
pub fn derive_key(password: &str, salt: &Vec<u8>, m_cost: u32, t_cost: u32, p_cost: u32) -> (r:
    Result<Vec<u8>, SerdeVaultError>)
    requires
        salt@.len() == SALT_SIZE,
    ensures
        r is Ok <==> kdf_params_valid(m_cost, t_cost, p_cost) && password_len_ok(password),
        r matches Ok(k) ==> k@ == argon2id_key(
            password.spec_bytes(),
            salt@,
            m_cost,
            t_cost,
            p_cost,
        ) && k@.len() == KEY_SIZE,
        r is Err ==> r matches Err(SerdeVaultError::KdfError(_)),
{
    if !check_kdf_params(m_cost, t_cost, p_cost) {
        return Err(SerdeVaultError::KdfError(("invalid cost parameters").to_owned()));
    }
    let password_bytes = password.as_bytes();
    if password_bytes.len() as u64 > MAX_PASSWORD_BYTES {
        return Err(SerdeVaultError::KdfError(("password too long").to_owned()));
    }
    Ok(argon2id_hash(password_bytes, salt.as_slice(), m_cost, t_cost, p_cost))
}

/// Decides `kdf_params_valid` on concrete cost parameters.
pub fn check_kdf_params(m_cost: u32, t_cost: u32, p_cost: u32) -> (r: bool)
    ensures
        r == kdf_params_valid(m_cost, t_cost, p_cost),
{
    m_cost >= 8 && m_cost as u64 >= 8 * (p_cost as u64) && t_cost >= 1 && 1 <= p_cost && p_cost
        <= 0xff_ffff
}

} // verus!
