//! Key derivation and authenticated encryption.

use aes_gcm::aead::{Aead, KeyInit};
use rand::RngCore;
use vstd::prelude::*;
use vstd::string::StringSliceAdditionalSpecFns;

verus! {

/// Length in bytes of the symmetric master key.
pub const KEY_LEN: usize = 32;

/// Length in bytes of the salt fed to key derivation.
pub const SALT_LEN: usize = 16;

/// Length in bytes of an AES-GCM nonce.
pub const NONCE_LEN: usize = 12;

/// Length in bytes of the authentication tag appended to every ciphertext.
pub const TAG_LEN: usize = 16;

/// Memory cost of Argon2id, in KiB blocks.
pub const ARGON2_MEMORY_KIB: u32 = 19456;

/// Number of Argon2id passes over memory.
pub const ARGON2_ITERATIONS: u32 = 2;

/// Degree of parallelism of Argon2id.
pub const ARGON2_PARALLELISM: u32 = 1;

/// Largest plaintext that AES-GCM accepts, in bytes.
pub const MAX_PLAINTEXT_LEN: u64 = 0x10_0000_0000;

/// Largest password, in UTF-8 bytes, that Argon2 accepts.
pub const MAX_PASSWORD_BYTES: u64 = 0xFFFF_FFFF;

/// The 32-byte Argon2id (version 0x13) output for a password (hashed as its
/// UTF-8 bytes), a salt and the three cost parameters.
pub uninterp spec fn argon2id_hash(
    password: Seq<char>,
    salt: Seq<u8>,
    memory_kib: u32,
    iterations: u32,
    parallelism: u32,
) -> Seq<u8>;

/// The AES-256-GCM ciphertext (with its 16-byte tag appended) of a plaintext
/// under a key and a nonce, with empty associated data.
pub uninterp spec fn aes256gcm_seal(key: Seq<u8>, nonce: Seq<u8>, plaintext: Seq<u8>) -> Seq<u8>;

/// The result of AES-256-GCM decryption of a ciphertext (tag appended) under a
/// key and a nonce, with empty associated data: the plaintext, or `None` when
/// the tag does not authenticate.
pub uninterp spec fn aes256gcm_open(key: Seq<u8>, nonce: Seq<u8>, ciphertext: Seq<u8>) -> Option<
    Seq<u8>,
>;

/// The key that `derive_key` produces: Argon2id under this library's cost
/// parameters.
pub open spec fn master_key(password: Seq<char>, salt: Seq<u8>) -> Seq<u8> {
    argon2id_hash(password, salt, ARGON2_MEMORY_KIB, ARGON2_ITERATIONS, ARGON2_PARALLELISM)
}

/// Whether a password is short enough to be hashed.
pub open spec fn password_fits(password: Seq<char>) -> bool {
    vstd::utf8::encode_utf8(password).len() <= MAX_PASSWORD_BYTES
}

/// Relies on `argon2::Params::new` and `argon2::Argon2::hash_password_into`
/// (Argon2id, version 0x13, 32-byte output): the output depends on the
/// password, the salt and the cost parameters alone. The `requires` are the
/// crate's own conditions for success.
#[verifier::external_body]
fn argon2id_into_key(
    password: &str,
    salt: &[u8],
    memory_kib: u32,
    iterations: u32,
    parallelism: u32,
) -> (r: [u8; 32])
    requires
        8 <= salt@.len() <= 0xFFFF_FFFF,
        password.spec_bytes().len() <= 0xFFFF_FFFF,
        1 <= parallelism <= 0xFF_FFFF,
        memory_kib >= 8 * parallelism,
        iterations >= 1,
    ensures
        r@ == argon2id_hash(password@, salt@, memory_kib, iterations, parallelism),
{
    let params = argon2::Params::new(memory_kib, iterations, parallelism, Some(32))
        .expect("valid Argon2 parameters");
    let hasher = argon2::Argon2::new(argon2::Algorithm::Argon2id, argon2::Version::V0x13, params);
    let mut key = [0u8; 32];
    hasher.hash_password_into(password.as_bytes(), salt, &mut key).expect("valid Argon2 inputs");
    key
}

/// Relies on `rand::rng()` and `RngCore::fill_bytes`: an array of bytes drawn
/// from the thread-local cryptographically secure generator. Nothing is known
/// of the values.
#[verifier::external_body]
pub(crate) fn random_bytes<const N: usize>() -> (r: [u8; N]) {
    let mut bytes = [0u8; N];
    rand::rng().fill_bytes(&mut bytes);
    bytes
}

/// Whether a character is an ASCII letter or digit.
pub open spec fn is_alphanumeric(c: char) -> bool {
    ('a' <= c && c <= 'z') || ('A' <= c && c <= 'Z') || ('0' <= c && c <= '9')
}

/// Relies on `rand::distr::Alphanumeric` sampled from `rand::rng()`:
/// `length` characters, each an ASCII letter or digit. Nothing more is known
/// of the values.
#[verifier::external_body]
pub(crate) fn random_alphanumeric(length: usize) -> (r: String)
    ensures
        r@.len() == length,
        forall|i: int| 0 <= i < length ==> is_alphanumeric(#[trigger] r@[i]),
{
    rand::Rng::sample_iter(rand::rng(), &rand::distr::Alphanumeric).take(length).map(char::from)
        .collect()
}

/// Relies on `aead::Aead::encrypt` for `aes_gcm::Aes256Gcm` with empty
/// associated data: the result is the ciphertext with the 16-byte tag
/// appended, and decrypting it under the same key and nonce gives the
/// plaintext back. Encryption fails only above the plaintext limit.
#[verifier::external_body]
fn aes_gcm_seal(key: &[u8; 32], nonce: &[u8; 12], plaintext: &[u8]) -> (r: Vec<u8>)
    requires
        plaintext@.len() <= MAX_PLAINTEXT_LEN,
    ensures
        r@ == aes256gcm_seal(key@, nonce@, plaintext@),
        r@.len() == plaintext@.len() + TAG_LEN,
        aes256gcm_open(key@, nonce@, r@) == Some(plaintext@),
{
    let cipher = aes_gcm::Aes256Gcm::new_from_slice(key).expect("32-byte key");
    cipher.encrypt(aes_gcm::Nonce::from_slice(nonce), plaintext).expect("plaintext within limit")
}

/// Relies on `aead::Aead::decrypt` for `aes_gcm::Aes256Gcm` with empty
/// associated data: the plaintext, or `None` when authentication fails.
#[verifier::external_body]
fn aes_gcm_open(key: &[u8; 32], nonce: &[u8; 12], ciphertext: &[u8]) -> (r: Option<Vec<u8>>)
    ensures
        match r {
            Some(p) => aes256gcm_open(key@, nonce@, ciphertext@) == Some(p@),
            None => aes256gcm_open(key@, nonce@, ciphertext@) is None,
        },
{
    let cipher = aes_gcm::Aes256Gcm::new_from_slice(key).expect("32-byte key");
    cipher.decrypt(aes_gcm::Nonce::from_slice(nonce), ciphertext).ok()
}

/// Deriving twice from equal passwords and equal salts gives equal keys:
/// a vault can be reopened later with the same password.
pub proof fn lemma_derive_key_deterministic(
    password1: Seq<char>,
    salt1: Seq<u8>,
    password2: Seq<char>,
    salt2: Seq<u8>,
)
    requires
        password1 == password2,
        salt1 == salt2,
    ensures
        master_key(password1, salt1) == master_key(password2, salt2),
{
}

/// Derives the 32-byte master key from a password and a salt with Argon2id.
/// The result is a function of the two inputs: the same password and salt
/// always give the same key.
pub fn derive_key(password: &str, salt: &[u8]) -> (key: [u8; 32])
    requires
        salt@.len() == SALT_LEN,
        password_fits(password@),
    ensures
        key@ == master_key(password@, salt@),
{
    argon2id_into_key(password, salt, ARGON2_MEMORY_KIB, ARGON2_ITERATIONS, ARGON2_PARALLELISM)
}

/// Encrypts `data` under `key` with a fresh random nonce, which is returned
/// beside the ciphertext. Decrypting the ciphertext under the same key and
/// the returned nonce gives `data` back.
pub fn encrypt_data(data: &[u8], key: &[u8; 32]) -> (r: (Vec<u8>, [u8; 12]))
    requires
        data@.len() <= MAX_PLAINTEXT_LEN,
    ensures
        r.0@ == aes256gcm_seal(key@, r.1@, data@),
        r.0@.len() == data@.len() + TAG_LEN,
        aes256gcm_open(key@, r.1@, r.0@) == Some(data@),
{
    let nonce: [u8; 12] = random_bytes();
    let ciphertext = aes_gcm_seal(key, &nonce, data);
    (ciphertext, nonce)
}

/// Decrypts and authenticates `ciphertext` under `key` and `nonce`. A wrong
/// key and a tampered ciphertext fail alike, with `AuthenticationFailure`.
pub fn decrypt_data(ciphertext: &[u8], key: &[u8; 32], nonce: &[u8; 12]) -> (r: Result<
    Vec<u8>,
    CipherError,
>)
    ensures
        match r {
            Ok(p) => aes256gcm_open(key@, nonce@, ciphertext@) == Some(p@),
            Err(e) => e == CipherError::AuthenticationFailure && aes256gcm_open(
                key@,
                nonce@,
                ciphertext@,
            ) is None,
        },
{
    match aes_gcm_open(key, nonce, ciphertext) {
        Some(p) => Ok(p),
        None => Err(CipherError::AuthenticationFailure),
    }
}

/// The failure of decryption.
#[derive(Debug, Clone, Copy, PartialEq, Eq, Structural)]
pub enum CipherError {
    AuthenticationFailure,
}

} // verus!
