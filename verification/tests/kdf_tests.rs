use vault_decrypt::kdf::ConfigError;
use vault_decrypt::kdf::KdfAlgorithm;
use vault_decrypt::kdf::KdfParameters;
use vault_decrypt::kdf::MasterKey;
use vault_decrypt::kdf::auth_hash;
use vault_decrypt::kdf::derive_master_key;

const EMAIL: &str = "user@example.com";
const PASSWORD: &str = "correct horse battery staple";

fn pbkdf2_params(iterations: u32) -> KdfParameters {
    KdfParameters::from_prelogin(0, Some(iterations), None, None, EMAIL).unwrap()
}

fn argon2_params(iterations: u32, memory_mib: u32, parallelism: u32) -> KdfParameters {
    KdfParameters::from_prelogin(2, Some(iterations), Some(memory_mib), Some(parallelism), EMAIL).unwrap()
}

#[test]
fn pbkdf2_golden_vector() {
    let params = pbkdf2_params(600000);
    let key = derive_master_key(PASSWORD, EMAIL, &params).unwrap();
    assert_eq!(
        hex::encode(&key.bytes),
        "c71819a4034797d6ffb897710fe68a823955f74decfab2cc1520972a0eb8934b"
    );
    assert_eq!(
        auth_hash(&key),
        "3b90c7d53c89e62f8b9a99b698a1d788748a2a6fe53dc4c141d61bbe90159a20"
    );
}

#[test]
fn pbkdf2_golden_vector_short() {
    let params = pbkdf2_params(1000);
    let key = derive_master_key(PASSWORD, EMAIL, &params).unwrap();
    assert_eq!(
        hex::encode(&key.bytes),
        "a8f3f946aff7a65b1c771a26bac08efefe22eae746fadbb92ed525302b52c49f"
    );
}

#[test]
fn pbkdf2_deterministic() {
    let params = pbkdf2_params(1000);
    let k1 = derive_master_key(PASSWORD, EMAIL, &params).unwrap();
    let k2 = derive_master_key(PASSWORD, EMAIL, &params).unwrap();
    assert_eq!(k1.bytes, k2.bytes);
    assert_eq!(k1.bytes.len(), 32);
}

#[test]
fn pbkdf2_sensitivity() {
    let params = pbkdf2_params(1000);
    let base = derive_master_key(PASSWORD, EMAIL, &params).unwrap();
    let other_password = derive_master_key("correct horse battery staple ", EMAIL, &params).unwrap();
    assert_ne!(base.bytes, other_password.bytes);
    let other_email = derive_master_key(PASSWORD, "other@example.com", &params).unwrap();
    assert_ne!(base.bytes, other_email.bytes);
    let other_salt = KdfParameters::from_prelogin(0, Some(1000), None, None, "another salt").unwrap();
    let other_salt_key = derive_master_key(PASSWORD, EMAIL, &other_salt).unwrap();
    assert_ne!(base.bytes, other_salt_key.bytes);
    let other_iterations = derive_master_key(PASSWORD, EMAIL, &pbkdf2_params(1001)).unwrap();
    assert_ne!(base.bytes, other_iterations.bytes);
}

#[test]
fn email_is_lowercased_before_use() {
    let params = pbkdf2_params(1000);
    let lower = derive_master_key(PASSWORD, EMAIL, &params).unwrap();
    let mixed = derive_master_key(PASSWORD, "User@Example.COM", &params).unwrap();
    assert_eq!(lower.bytes, mixed.bytes);
}

#[test]
fn argon2_deterministic_and_sensitive() {
    let params = argon2_params(2, 1, 1);
    let k1 = derive_master_key(PASSWORD, EMAIL, &params).unwrap();
    let k2 = derive_master_key(PASSWORD, EMAIL, &params).unwrap();
    assert_eq!(k1.bytes, k2.bytes);
    assert_eq!(k1.bytes.len(), 32);
    let other = derive_master_key("another password", EMAIL, &params).unwrap();
    assert_ne!(k1.bytes, other.bytes);
    let pbkdf2_key = derive_master_key(PASSWORD, EMAIL, &pbkdf2_params(2)).unwrap();
    assert_ne!(k1.bytes, pbkdf2_key.bytes);
}

#[test]
fn argon2_golden_vector() {
    let params = argon2_params(2, 1, 1);
    let key = derive_master_key(PASSWORD, EMAIL, &params).unwrap();
    assert_eq!(
        hex::encode(&key.bytes),
        "d6f0dd9642caa41d00888ed02527353f3cfbb61069a0ebe82c3f9aabc5082d84"
    );
}

#[test]
fn unsupported_kdf_is_rejected() {
    assert_eq!(
        KdfParameters::from_prelogin(1, None, None, None, EMAIL).unwrap_err(),
        ConfigError::UnsupportedKdfAlgorithm
    );
    assert_eq!(
        KdfParameters::from_prelogin(7, Some(1000), None, None, EMAIL).unwrap_err(),
        ConfigError::UnsupportedKdfAlgorithm
    );
}

#[test]
fn missing_fields_resolve_to_documented_defaults() {
    let p = KdfParameters::from_prelogin(0, None, None, None, EMAIL).unwrap();
    assert_eq!(p.algorithm, KdfAlgorithm::Pbkdf2Sha256);
    assert_eq!(p.iterations, 600000);
    assert_eq!(p.salt, EMAIL.as_bytes().to_vec());
    let a = KdfParameters::from_prelogin(2, None, None, None, EMAIL).unwrap();
    assert_eq!(a.algorithm, KdfAlgorithm::Argon2id);
    assert_eq!(a.iterations, 3);
    assert_eq!(a.memory_kib, 64 * 1024);
    assert_eq!(a.parallelism, 4);
}

#[test]
fn argon2_memory_is_stored_in_kib() {
    let a = KdfParameters::from_prelogin(2, Some(3), Some(16), Some(2), EMAIL).unwrap();
    assert_eq!(a.memory_kib, 16 * 1024);
}

#[test]
fn argon2_memory_overflow_is_rejected() {
    assert_eq!(
        KdfParameters::from_prelogin(2, Some(3), Some(4194304), Some(4), EMAIL).unwrap_err(),
        ConfigError::InvalidKdfParameters
    );
}

#[test]
fn argon2_invalid_parameters_fail_derivation() {
    let zero_parallelism = argon2_params(2, 1, 0);
    assert_eq!(
        derive_master_key(PASSWORD, EMAIL, &zero_parallelism).unwrap_err(),
        ConfigError::InvalidKdfParameters
    );
    let zero_memory = argon2_params(2, 0, 1);
    assert_eq!(
        derive_master_key(PASSWORD, EMAIL, &zero_memory).unwrap_err(),
        ConfigError::InvalidKdfParameters
    );
    let short_salt = KdfParameters::from_prelogin(2, Some(2), Some(1), Some(1), "salty").unwrap();
    assert_eq!(
        derive_master_key(PASSWORD, EMAIL, &short_salt).unwrap_err(),
        ConfigError::InvalidKdfParameters
    );
}

#[test]
fn auth_hash_is_64_lowercase_hex_characters() {
    let key = MasterKey { bytes: vec![0u8; 32] };
    let h = auth_hash(&key);
    assert_eq!(h.len(), 64);
    assert!(h.chars().all(|c| c.is_ascii_hexdigit() && !c.is_ascii_uppercase()));
    assert_eq!(h, "66687aadf862bd776c8fc18b8e9f8e20089714856ee233b3902a591d0d5f2925");
    let other = auth_hash(&MasterKey { bytes: vec![1u8; 32] });
    assert_eq!(other.len(), 64);
    assert_ne!(h, other);
}

#[test]
fn auth_hash_deterministic() {
    let key = MasterKey { bytes: (0u8..32).collect() };
    assert_eq!(auth_hash(&key), auth_hash(&key.clone()));
}
