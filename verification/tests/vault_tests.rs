//! End-to-end tests of sealing and opening vault file images.

use serdevault::vault::{open_bytes, seal_bytes, seal_with_materials};
use serdevault::SerdeVaultError;

// Low-cost Argon2 params so tests run in milliseconds instead of seconds.
const M: u32 = 8;
const T: u32 = 1;
const P: u32 = 1;

fn sample_plaintext() -> Vec<u8> {
    let json = "{\"name\":\"GitHub perso\",\"value\":42,\"tags\":[\"work\",\"git\"],\"optional\":\"note\"}";
    json.as_bytes().to_vec()
}

// 1. seal -> open -> data is identical
#[test]
fn test_roundtrip() {
    let data = sample_plaintext();
    let image = seal_bytes(&data, "correct-horse-battery", M, T, P).expect("save failed");
    let loaded = open_bytes(&image, "correct-horse-battery").expect("load failed");
    assert_eq!(data, loaded);
}

// 2. A payload holding a JSON null round-trips byte for byte.
#[test]
fn test_roundtrip_option_none() {
    let json = "{\"name\":\"GitHub perso\",\"value\":42,\"tags\":[\"work\",\"git\"],\"optional\":null}";
    let data = json.as_bytes().to_vec();
    let image = seal_bytes(&data, "pwd", M, T, P).unwrap();
    let loaded = open_bytes(&image, "pwd").unwrap();
    assert_eq!(data, loaded);
}

// 3. Wrong password -> DecryptionFailed, not a panic
#[test]
fn test_wrong_password() {
    let data = sample_plaintext();
    let image = seal_bytes(&data, "correct", M, T, P).unwrap();
    let err = open_bytes(&image, "wrong").unwrap_err();
    assert!(matches!(err, SerdeVaultError::DecryptionFailed));
}

// 4. Completely empty file -> InvalidFormat
#[test]
fn test_empty_file() {
    let err = open_bytes(&[], "pwd").unwrap_err();
    assert!(matches!(err, SerdeVaultError::InvalidFormat(_)));
}

// 5. File with wrong magic number -> InvalidFormat
#[test]
fn test_bad_magic() {
    let garbage = vec![0xFFu8; serdevault::format::HEADER_SIZE + 16];
    let err = open_bytes(&garbage, "pwd").unwrap_err();
    assert!(matches!(err, SerdeVaultError::InvalidFormat(_)));
}

// 6. File with correct magic but truncated body -> DecryptionFailed (GCM tag missing)
#[test]
fn test_truncated_ciphertext() {
    let image = seal_bytes(&sample_plaintext(), "pwd", M, T, P).unwrap();
    let header_only = image[..serdevault::format::HEADER_SIZE].to_vec();
    let err = open_bytes(&header_only, "pwd").unwrap_err();
    assert!(matches!(err, SerdeVaultError::DecryptionFailed));
}

// 7. Unsupported version byte -> UnsupportedVersion
#[test]
fn test_unsupported_version() {
    let mut image = seal_bytes(&sample_plaintext(), "pwd", M, T, P).unwrap();
    image[4] = 99;
    let err = open_bytes(&image, "pwd").unwrap_err();
    assert!(matches!(err, SerdeVaultError::UnsupportedVersion(99)));
}

// 8. Two saves produce different file images (fresh salt + nonce each time)
#[test]
fn test_fresh_nonce_on_every_save() {
    let data = sample_plaintext();
    let first = seal_bytes(&data, "pwd", M, T, P).unwrap();
    let second = seal_bytes(&data, "pwd", M, T, P).unwrap();
    assert_ne!(
        first, second,
        "two saves of identical data must produce different ciphertexts"
    );
}

// The concrete scenario: a small record saved with "pw" and cost (8, 1, 1).
#[test]
fn test_scenario_small_record() {
    let record = "{\"name\":\"x\",\"value\":1}".as_bytes().to_vec();
    let image = seal_bytes(&record, "pw", 8, 1, 1).unwrap();

    let loaded = open_bytes(&image, "pw").unwrap();
    assert_eq!(record, loaded);

    let err = open_bytes(&image, "wrong").unwrap_err();
    assert!(matches!(err, SerdeVaultError::DecryptionFailed));

    let mut corrupted = image.clone();
    corrupted[4] = 99;
    let err = open_bytes(&corrupted, "pw").unwrap_err();
    assert!(matches!(err, SerdeVaultError::UnsupportedVersion(99)));
}

// Invalid cost parameters are rejected before any random or cryptographic work.
#[test]
fn test_invalid_params_rejected() {
    let data = sample_plaintext();
    let err = seal_bytes(&data, "pwd", 0, 1, 1).unwrap_err();
    assert!(matches!(err, SerdeVaultError::KdfError(_)));
    let err = seal_bytes(&data, "pwd", 8, 0, 1).unwrap_err();
    assert!(matches!(err, SerdeVaultError::KdfError(_)));
    let err = seal_bytes(&data, "pwd", 8, 1, 0).unwrap_err();
    assert!(matches!(err, SerdeVaultError::KdfError(_)));
    // 8 KiB of memory cannot feed two lanes.
    let err = seal_bytes(&data, "pwd", 8, 1, 2).unwrap_err();
    assert!(matches!(err, SerdeVaultError::KdfError(_)));
}

// An empty password is a legal password.
#[test]
fn test_empty_password_roundtrip() {
    let data = b"top secret".to_vec();
    let image = seal_bytes(&data, "", M, T, P).unwrap();
    assert_eq!(open_bytes(&image, "").unwrap(), data);
    assert!(matches!(
        open_bytes(&image, "x").unwrap_err(),
        SerdeVaultError::DecryptionFailed
    ));
}

// An empty plaintext round-trips; the image is exactly header plus tag.
#[test]
fn test_empty_plaintext_roundtrip() {
    let image = seal_bytes(&[], "pwd", M, T, P).unwrap();
    assert_eq!(
        image.len(),
        serdevault::format::HEADER_SIZE + serdevault::cipher::TAG_SIZE
    );
    assert_eq!(open_bytes(&image, "pwd").unwrap(), Vec::<u8>::new());
}

// Flipping one ciphertext byte makes the tag check fail.
#[test]
fn test_corrupted_ciphertext() {
    let image = seal_bytes(&sample_plaintext(), "pwd", M, T, P).unwrap();
    let mut corrupted = image.clone();
    let last = corrupted.len() - 1;
    corrupted[last] ^= 0x01;
    let err = open_bytes(&corrupted, "pwd").unwrap_err();
    assert!(matches!(err, SerdeVaultError::DecryptionFailed));
}

// The cost parameters written into the image are the ones given at save time.
#[test]
fn test_costs_stored_in_header() {
    let image = seal_bytes(b"v", "pwd", 16, 2, 1).unwrap();
    // Little-endian u32 fields at offsets 37, 41 and 45.
    assert_eq!(&image[37..41], &[16, 0, 0, 0]);
    assert_eq!(&image[41..45], &[2, 0, 0, 0]);
    assert_eq!(&image[45..49], &[1, 0, 0, 0]);
    assert_eq!(&image[0..4], b"SVLT");
    assert_eq!(image[4], 1);
}

// Sealing with fixed materials is deterministic, and the image still opens.
#[test]
fn test_seal_with_materials_deterministic() {
    let data = sample_plaintext();
    let salt: Vec<u8> = (0u8..32).collect();
    let nonce: Vec<u8> = (50u8..62).collect();

    let first =
        seal_with_materials(&data, "pwd", M, T, P, salt.clone(), nonce.clone()).unwrap();
    let second = seal_with_materials(&data, "pwd", M, T, P, salt, nonce).unwrap();
    assert_eq!(first, second);

    assert_eq!(open_bytes(&first, "pwd").unwrap(), data);
    assert!(matches!(
        open_bytes(&first, "nope").unwrap_err(),
        SerdeVaultError::DecryptionFailed
    ));
}
