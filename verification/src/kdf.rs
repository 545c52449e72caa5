//! Key-derivation: KDF parameter negotiation, master-key derivation and
//! the authentication hash.

use vstd::prelude::*;
use sha2::Digest;

verus! {

use vstd::utf8::encode_utf8;

/// Default iteration count when the server omits it for PBKDF2-SHA-256.
pub const DEFAULT_PBKDF2_ITERATIONS: u32 = 600000;

/// Default iteration count when the server omits it for Argon2id.
pub const DEFAULT_ARGON2_ITERATIONS: u32 = 3;

/// Default memory cost in MiB when the server omits it for Argon2id.
pub const DEFAULT_ARGON2_MEMORY_MIB: u32 = 64;

/// Default lane count when the server omits it for Argon2id.
pub const DEFAULT_ARGON2_PARALLELISM: u32 = 4;

/// Which key-derivation function the server selected. Exactly two
/// algorithms are supported; any other selector is rejected outright,
/// never silently replaced by a default.
#[derive(Clone, Copy, PartialEq, Eq, Structural, Debug)]
pub enum KdfAlgorithm {
    Pbkdf2Sha256,
    Argon2id,
}

/// A fatal configuration mismatch: the run must not proceed, since a
/// wrong KDF configuration would silently derive the wrong key.
#[derive(Clone, Copy, PartialEq, Eq, Structural, Debug)]
pub enum ConfigError {
    /// The server named a KDF this client does not implement.
    UnsupportedKdfAlgorithm,
    /// The numeric KDF parameters cannot be used (for example, an
    /// Argon2 memory cost below the algorithm's minimum).
    InvalidKdfParameters,
}

/// The server's key-derivation configuration, as negotiated once per
/// run and immutable thereafter. `memory_kib` and `parallelism` are
/// meaningful only for [`KdfAlgorithm::Argon2id`].
#[derive(Clone, Debug)]
pub struct KdfParameters {
    pub algorithm: KdfAlgorithm,
    pub iterations: u32,
    pub memory_kib: u32,
    pub parallelism: u32,
    /// The literal salt string delivered by the server, as raw UTF-8
    /// bytes. It is not base64-decoded.
    pub salt: Vec<u8>,
}

/// A 32-byte symmetric key derived from the master password. Used only
/// to compute the authentication hash and to unwrap the account key.
#[derive(Clone, Debug)]
pub struct MasterKey {
    pub bytes: Vec<u8>,
}

impl MasterKey {
    pub open spec fn wf(&self) -> bool {
        self.bytes@.len() == 32
    }
}

/// The value of an optional numeric field, or its documented default.
pub open spec fn or_default(v: Option<u32>, d: u32) -> u32 {
    match v {
        Some(x) => x,
        None => d,
    }
}

impl KdfParameters {
    /// Builds the KDF configuration from the fields of the server's
    /// prelogin response. `kdf` selects the algorithm (0 is
    /// PBKDF2-SHA-256, 2 is Argon2id); absent optional fields resolve
    /// to the documented defaults, never to zero. The Argon2 memory
    /// field arrives in MiB and is stored in KiB.
    pub fn from_prelogin(
        kdf: u32,
        iterations: Option<u32>,
        memory_mib: Option<u32>,
        parallelism: Option<u32>,
        salt: &str,
    ) -> (r: Result<KdfParameters, ConfigError>)
        ensures
            kdf == 0 ==> (r matches Ok(p)
                && p.algorithm is Pbkdf2Sha256
                && p.iterations == or_default(iterations, DEFAULT_PBKDF2_ITERATIONS)
                && p.memory_kib == 0
                && p.parallelism == 0
                && p.salt@ == encode_utf8(salt@)),
            kdf == 2 && or_default(memory_mib, DEFAULT_ARGON2_MEMORY_MIB) <= 4194303 ==> (r matches Ok(p)
                && p.algorithm is Argon2id
                && p.iterations == or_default(iterations, DEFAULT_ARGON2_ITERATIONS)
                && p.memory_kib == or_default(memory_mib, DEFAULT_ARGON2_MEMORY_MIB) * 1024
                && p.parallelism == or_default(parallelism, DEFAULT_ARGON2_PARALLELISM)
                && p.salt@ == encode_utf8(salt@)),
            kdf == 2 && or_default(memory_mib, DEFAULT_ARGON2_MEMORY_MIB) > 4194303 ==> (r matches Err(e)
                && e is InvalidKdfParameters),
            kdf != 0 && kdf != 2 ==> (r matches Err(e) && e is UnsupportedKdfAlgorithm),
    {
        let mut salt_bytes: Vec<u8> = Vec::new();
        salt_bytes.extend_from_slice(salt.as_bytes());
        if kdf == 0 {
            let iters = match iterations {
                Some(v) => v,
                None => DEFAULT_PBKDF2_ITERATIONS,
            };
            Ok(KdfParameters {
                algorithm: KdfAlgorithm::Pbkdf2Sha256,
                iterations: iters,
                memory_kib: 0,
                parallelism: 0,
                salt: salt_bytes,
            })
        } else if kdf == 2 {
            let iters = match iterations {
                Some(v) => v,
                None => DEFAULT_ARGON2_ITERATIONS,
            };
            let mem_mib = match memory_mib {
                Some(v) => v,
                None => DEFAULT_ARGON2_MEMORY_MIB,
            };
            let par = match parallelism {
                Some(v) => v,
                None => DEFAULT_ARGON2_PARALLELISM,
            };
            if mem_mib > 4194303 {
                Err(ConfigError::InvalidKdfParameters)
            } else {
                Ok(KdfParameters {
                    algorithm: KdfAlgorithm::Argon2id,
                    iterations: iters,
                    memory_kib: mem_mib * 1024,
                    parallelism: par,
                    salt: salt_bytes,
                })
            }
        } else {
            Err(ConfigError::UnsupportedKdfAlgorithm)
        }
    }
}

/// What `str::to_lowercase` returns: a character sequence determined
/// by the input characters alone.
pub uninterp spec fn lowercased(s: Seq<char>) -> Seq<char>;

/// Relies on `str::to_lowercase`: the result depends on the input
/// characters alone.
#[verifier::external_body]
fn to_lowercase(s: &str) -> (r: String)
    ensures
        r@ == lowercased(s@),
{
    s.to_lowercase()
}

/// What PBKDF2 with HMAC-SHA-256 derives into a 32-byte output buffer:
/// a value determined by the secret, the salt and the round count.
pub uninterp spec fn pbkdf2_hmac_sha256_32(secret: Seq<u8>, salt: Seq<u8>, rounds: u32) -> Seq<u8>;

/// Relies on `pbkdf2::pbkdf2_hmac` with SHA-256: fills the 32-byte
/// output with a value determined by secret, salt and rounds alone.
#[verifier::external_body]
fn pbkdf2_sha256_derive(secret: &[u8], salt: &[u8], rounds: u32) -> (r: Vec<u8>)
    ensures
        r@ == pbkdf2_hmac_sha256_32(secret@, salt@, rounds),
        r@.len() == 32,
{
    let mut out = vec![0u8; 32];
    pbkdf2::pbkdf2_hmac::<sha2::Sha256>(secret, salt, rounds, &mut out);
    out
}

/// What Argon2id (version 0x13) derives into a 32-byte output buffer:
/// a value determined by the secret, the salt and the cost parameters.
pub uninterp spec fn argon2id_32(secret: Seq<u8>, salt: Seq<u8>, m_cost: u32, t_cost: u32, p_cost: u32) -> Seq<u8>;

/// The inputs `argon2::Params::new` and `Argon2::hash_password_into`
/// accept for a 32-byte output: memory cost at least 8 KiB and at
/// least 8 blocks per lane, between 1 and 2^24 - 1 lanes, at least one
/// iteration, and a salt of 8 to 2^32 - 1 bytes (the secret may be at
/// most 2^32 - 1 bytes).
pub open spec fn argon2_inputs_ok(secret_len: nat, salt_len: nat, m_cost: u32, t_cost: u32, p_cost: u32) -> bool {
    &&& 1 <= p_cost <= 0xFFFFFF
    &&& m_cost >= 8
    &&& m_cost >= 8 * p_cost
    &&& t_cost >= 1
    &&& 8 <= salt_len <= 0xFFFFFFFF
    &&& secret_len <= 0xFFFFFFFF
}

/// Relies on `argon2::Argon2::hash_password_into` with algorithm
/// Argon2id and version 0x13: on success the 32-byte output is
/// determined by the inputs alone; inputs outside the ranges the
/// crate accepts are always rejected.
#[verifier::external_body]
fn argon2id_derive(secret: &[u8], salt: &[u8], m_cost: u32, t_cost: u32, p_cost: u32) -> (r: Option<Vec<u8>>)
    ensures
        (r matches Some(v) ==> v@ == argon2id_32(secret@, salt@, m_cost, t_cost, p_cost) && v@.len() == 32),
        !argon2_inputs_ok(secret@.len(), salt@.len(), m_cost, t_cost, p_cost) ==> r is None,
{
    let params = match argon2::Params::new(m_cost, t_cost, p_cost, None) {
        Ok(p) => p,
        Err(_) => return None,
    };
    let ctx = argon2::Argon2::new(argon2::Algorithm::Argon2id, argon2::Version::V0x13, params);
    let mut out = vec![0u8; 32];
    match ctx.hash_password_into(secret, salt, &mut out) {
        Ok(()) => Some(out),
        Err(_) => None,
    }
}

/// The byte string stretched by the KDF: the UTF-8 bytes of the
/// lower-cased email followed by the UTF-8 bytes of the password,
/// concatenated without a delimiter.
pub open spec fn master_secret(password: Seq<char>, email: Seq<char>) -> Seq<u8> {
    encode_utf8(lowercased(email)) + encode_utf8(password)
}

/// The 32-byte master key that the configured KDF derives from the
/// password, the lower-cased email, and the salt.
pub open spec fn master_key_bytes(password: Seq<char>, email: Seq<char>, p: KdfParameters) -> Seq<u8> {
    match p.algorithm {
        KdfAlgorithm::Pbkdf2Sha256 => pbkdf2_hmac_sha256_32(master_secret(password, email), p.salt@, p.iterations),
        KdfAlgorithm::Argon2id => argon2id_32(master_secret(password, email), p.salt@, p.memory_kib, p.iterations, p.parallelism),
    }
}

/// Derives the master key. The password is significant byte for byte
/// (no trimming or normalization); the email is lower-cased first.
/// PBKDF2-SHA-256 derivation always succeeds; Argon2id fails (and the
/// run must abort) when its parameters are outside the ranges the
/// algorithm accepts.
pub fn derive_master_key(password: &str, email: &str, params: &KdfParameters) -> (r: Result<MasterKey, ConfigError>)
    ensures
        (r matches Ok(k) ==> k.wf() && k.bytes@ == master_key_bytes(password@, email@, *params)),
        (r matches Err(e) ==> params.algorithm is Argon2id && e is InvalidKdfParameters),
        params.algorithm is Pbkdf2Sha256 ==> r is Ok,
        params.algorithm is Argon2id && !argon2_inputs_ok(
            master_secret(password@, email@).len(),
            params.salt@.len(),
            params.memory_kib,
            params.iterations,
            params.parallelism,
        ) ==> r is Err,
{
    let lower = to_lowercase(email);
    let mut secret: Vec<u8> = Vec::new();
    secret.extend_from_slice(lower.as_str().as_bytes());
    secret.extend_from_slice(password.as_bytes());
    proof {
        assert(secret@ =~= master_secret(password@, email@));
    }
    match params.algorithm {
        KdfAlgorithm::Pbkdf2Sha256 => {
            let out = pbkdf2_sha256_derive(secret.as_slice(), params.salt.as_slice(), params.iterations);
            Ok(MasterKey { bytes: out })
        },
        KdfAlgorithm::Argon2id => {
            match argon2id_derive(
                secret.as_slice(),
                params.salt.as_slice(),
                params.memory_kib,
                params.iterations,
                params.parallelism,
            ) {
                Some(out) => Ok(MasterKey { bytes: out }),
                None => Err(ConfigError::InvalidKdfParameters),
            }
        },
    }
}

/// What SHA-256 returns: a 32-byte digest determined by the input
/// bytes alone.
pub uninterp spec fn sha256_digest(data: Seq<u8>) -> Seq<u8>;

/// Relies on `sha2::Sha256` through the `Digest` trait: a 32-byte
/// digest determined by the input bytes alone.
#[verifier::external_body]
fn sha256(data: &[u8]) -> (r: Vec<u8>)
    ensures
        r@ == sha256_digest(data@),
        r@.len() == 32,
{
    sha2::Sha256::digest(data).to_vec()
}

/// The lowercase hexadecimal digit for a nibble.
pub open spec fn hex_digit(n: u8) -> char {
    if n == 0 { '0' }
    else if n == 1 { '1' }
    else if n == 2 { '2' }
    else if n == 3 { '3' }
    else if n == 4 { '4' }
    else if n == 5 { '5' }
    else if n == 6 { '6' }
    else if n == 7 { '7' }
    else if n == 8 { '8' }
    else if n == 9 { '9' }
    else if n == 10 { 'a' }
    else if n == 11 { 'b' }
    else if n == 12 { 'c' }
    else if n == 13 { 'd' }
    else if n == 14 { 'e' }
    else { 'f' }
}

/// Lowercase hexadecimal encoding: two digits per byte, high nibble
/// first.
pub open spec fn hex_encoded(b: Seq<u8>) -> Seq<char> {
    Seq::new(b.len() * 2, |i: int| if i % 2 == 0 { hex_digit(b[i / 2] >> 4) } else { hex_digit(b[i / 2] & 0xf) })
}

/// Relies on `hex::encode`: lowercase hexadecimal, two digits per
/// byte, high nibble first.
#[verifier::external_body]
fn hex_encode(b: &[u8]) -> (r: String)
    ensures
        r@ == hex_encoded(b@),
{
    hex::encode(b)
}

/// Law: master-key derivation is deterministic. The derived key is a
/// function of the password, the email and the KDF parameters alone,
/// so two derivations from field-wise identical configurations agree.
pub proof fn lemma_master_key_deterministic(password: Seq<char>, email: Seq<char>, p1: KdfParameters, p2: KdfParameters)
    requires
        p1.algorithm == p2.algorithm,
        p1.iterations == p2.iterations,
        p1.memory_kib == p2.memory_kib,
        p1.parallelism == p2.parallelism,
        p1.salt@ == p2.salt@,
    ensures
        master_key_bytes(password, email, p1) == master_key_bytes(password, email, p2),
{
}

/// The authentication hash sent to the server in place of the
/// password: the lowercase hex encoding of the SHA-256 digest of the
/// raw master-key bytes. Always 64 hex characters for the 32-byte
/// digest; no further stretching happens here.
pub fn auth_hash(key: &MasterKey) -> (r: String)
    requires
        key.wf(),
    ensures
        r@ == hex_encoded(sha256_digest(key.bytes@)),
        r@.len() == 64,
{
    let digest = sha256(key.bytes.as_slice());
    hex_encode(digest.as_slice())
}

} // verus!
