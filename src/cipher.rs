//! Key derivation and the authenticated encryption that seals the vault.
//!
//! The key comes from Argon2id over the master password and the vault's salt;
//! the vault is sealed with XChaCha20-Poly1305 under a fresh random 24-byte
//! nonce on every call, with no associated data.
use vstd::prelude::*;
use chacha20poly1305::aead::{Aead, KeyInit};
use crate::error::VaultError;
use crate::envelope::{NONCE_LEN, SALT_LEN};

verus! {

#[verifier::external_type_specification]
#[verifier::external_body]
pub struct ExArgon2Error(argon2::Error);

#[verifier::external_type_specification]
#[verifier::external_body]
pub struct ExAeadError(chacha20poly1305::Error);

#[verifier::external_type_specification]
#[verifier::external_body]
pub struct ExRandomError(getrandom::Error);

/// Memory cost of the key derivation, in KiB. The file format does not
/// record these parameters: changing any of them needs a new format version.
pub const KDF_MEMORY_KIB: u32 = 65536;
/// Number of passes of the key derivation.
pub const KDF_PASSES: u32 = 3;
/// Degree of parallelism of the key derivation.
pub const KDF_LANES: u32 = 1;
/// Length of the derived key.
pub const KEY_LEN: usize = 32;
/// Length of the authentication tag appended to every ciphertext.
pub const TAG_LEN: usize = 16;
/// Longest password, in bytes, that the key derivation accepts.
pub const MAX_PASSWORD_LEN: usize = 0xFFFF_FFFF;

/// The Argon2id (version 0x13) output for these inputs and parameters.
pub uninterp spec fn argon2id_output(
    password: Seq<u8>,
    salt: Seq<u8>,
    m_cost: u32,
    t_cost: u32,
    p_cost: u32,
    out_len: usize,
) -> Seq<u8>;

/// XChaCha20-Poly1305 encryption, without associated data: ciphertext
/// followed by the tag.
pub uninterp spec fn xchacha_seal(key: Seq<u8>, nonce: Seq<u8>, plaintext: Seq<u8>) -> Seq<u8>;

/// XChaCha20-Poly1305 decryption, without associated data: the plaintext, or
/// `None` where the tag does not verify.
pub uninterp spec fn xchacha_open(key: Seq<u8>, nonce: Seq<u8>, ciphertext: Seq<u8>) -> Option<Seq<u8>>;

/// The vault key for a password and a salt.
pub open spec fn derived_key(password: Seq<u8>, salt: Seq<u8>) -> Seq<u8> {
    argon2id_output(password, salt, KDF_MEMORY_KIB, KDF_PASSES, KDF_LANES, KEY_LEN)
}

/// Whether the key derivation accepts this password.
pub open spec fn password_accepted(password: Seq<u8>) -> bool {
    password.len() <= MAX_PASSWORD_LEN
}

/// Whether the cipher accepts a plaintext of this length: fewer than
/// 2^32 - 1 blocks of 64 bytes.
pub open spec fn sealable(plaintext: Seq<u8>) -> bool {
    plaintext.len() / 64 < 0xFFFF_FFFF
}

/// Relies on argon2's `Params::new` and `Argon2::hash_password_into`
/// (Argon2id, version 0x13): with parameters in the ranges below and a salt of
/// 8 to 2^32 - 1 bytes, they fail only on a password longer than 2^32 - 1
/// bytes, and otherwise fill `out_len` bytes from the inputs alone.
#[verifier::external_body]
fn argon2id_hash(
    password: &[u8],
    salt: &[u8],
    m_cost: u32,
    t_cost: u32,
    p_cost: u32,
    out_len: usize,
) -> (r: Result<Vec<u8>, argon2::Error>)
    requires
        8 <= salt@.len() <= 0xFFFF_FFFF,
        1 <= t_cost,
        1 <= p_cost <= 0xFF_FFFF,
        8 <= m_cost,
        8 * p_cost <= m_cost,
        4 <= out_len <= 0xFFFF_FFFF,
    ensures
        r is Ok <==> password@.len() <= MAX_PASSWORD_LEN,
        r matches Ok(k) ==> k@ == argon2id_output(password@, salt@, m_cost, t_cost, p_cost, out_len),
        r matches Ok(k) ==> k@.len() == out_len,
{
    let params = argon2::Params::new(m_cost, t_cost, p_cost, Some(out_len))?;
    let mut out = vec![0u8; out_len];
    argon2::Argon2::new(argon2::Algorithm::Argon2id, argon2::Version::V0x13, params)
        .hash_password_into(password, salt, &mut out)?;
    Ok(out)
}

/// Relies on chacha20poly1305's `XChaCha20Poly1305::encrypt`: it fails only
/// on a plaintext of 2^32 - 1 or more 64-byte blocks; otherwise it returns the
/// ciphertext followed by a 16-byte tag, which decrypts back to the plaintext
/// under the same key and nonce.
#[verifier::external_body]
fn xchacha_encrypt(key: &[u8], nonce: &[u8], plaintext: &[u8]) -> (r: Result<Vec<u8>, chacha20poly1305::Error>)
    requires
        key@.len() == KEY_LEN,
        nonce@.len() == NONCE_LEN,
    ensures
        r is Ok <==> sealable(plaintext@),
        r matches Ok(c) ==> c@ == xchacha_seal(key@, nonce@, plaintext@),
        r matches Ok(c) ==> c@.len() == plaintext@.len() + TAG_LEN,
        r matches Ok(c) ==> xchacha_open(key@, nonce@, c@) == Some(plaintext@),
{
    let cipher = chacha20poly1305::XChaCha20Poly1305::new(chacha20poly1305::Key::from_slice(key));
    cipher.encrypt(chacha20poly1305::XNonce::from_slice(nonce), plaintext)
}

/// Relies on chacha20poly1305's `XChaCha20Poly1305::decrypt`: the plaintext
/// where the tag verifies, an error otherwise.
#[verifier::external_body]
fn xchacha_decrypt(key: &[u8], nonce: &[u8], ciphertext: &[u8]) -> (r: Result<Vec<u8>, chacha20poly1305::Error>)
    requires
        key@.len() == KEY_LEN,
        nonce@.len() == NONCE_LEN,
    ensures
        r is Ok <==> xchacha_open(key@, nonce@, ciphertext@) is Some,
        r matches Ok(p) ==> xchacha_open(key@, nonce@, ciphertext@) == Some(p@),
{
    let cipher = chacha20poly1305::XChaCha20Poly1305::new(chacha20poly1305::Key::from_slice(key));
    cipher.decrypt(chacha20poly1305::XNonce::from_slice(nonce), ciphertext)
}

/// Relies on getrandom's `getrandom`: fills the buffer from the operating
/// system's secure random source, or fails; the length never changes.
#[verifier::external_body]
fn fill_random(buf: &mut Vec<u8>) -> (r: Result<(), getrandom::Error>)
    ensures
        final(buf)@.len() == old(buf)@.len(),
{
    getrandom::getrandom(buf.as_mut_slice())
}

/// Derives the vault key from the master password and the vault's salt.
/// Deterministic: the same password and salt always give the same key. A
/// wrong password is not detected here, only when decryption fails.
pub fn derive_key(password: &[u8], salt: &[u8]) -> (r: Result<Vec<u8>, VaultError>)
    requires
        salt@.len() == SALT_LEN,
    ensures
        r is Ok <==> password_accepted(password@),
        r matches Ok(k) ==> k@ == derived_key(password@, salt@) && k@.len() == KEY_LEN,
        r matches Err(e) ==> e == VaultError::Crypto,
{
    match argon2id_hash(password, salt, KDF_MEMORY_KIB, KDF_PASSES, KDF_LANES, KEY_LEN) {
        Ok(k) => Ok(k),
        Err(_) => Err(VaultError::Crypto),
    }
}

/// Encrypts `plaintext` under `key` and the given nonce.
pub fn seal_with_nonce(key: &[u8], nonce: &[u8], plaintext: &[u8]) -> (r: Result<Vec<u8>, VaultError>)
    requires
        key@.len() == KEY_LEN,
        nonce@.len() == NONCE_LEN,
    ensures
        r is Ok <==> sealable(plaintext@),
        r matches Ok(c) ==> c@ == xchacha_seal(key@, nonce@, plaintext@),
        r matches Ok(c) ==> c@.len() == plaintext@.len() + TAG_LEN,
        r matches Ok(c) ==> xchacha_open(key@, nonce@, c@) == Some(plaintext@),
        r matches Err(e) ==> e == VaultError::Crypto,
{
    match xchacha_encrypt(key, nonce, plaintext) {
        Ok(c) => Ok(c),
        Err(_) => Err(VaultError::Crypto),
    }
}

/// `n` bytes from the secure random source.
pub fn random_bytes(n: usize) -> (r: Result<Vec<u8>, VaultError>)
    ensures
        r matches Ok(v) ==> v@.len() == n,
        r matches Err(e) ==> e == VaultError::Random,
{
    let mut buf: Vec<u8> = Vec::new();
    let mut i: usize = 0;
    while i < n
        invariant
            i <= n,
            buf@.len() == i,
        decreases n - i,
    {
        buf.push(0);
        i = i + 1;
    }
    match fill_random(&mut buf) {
        Ok(()) => Ok(buf),
        Err(_) => Err(VaultError::Random),
    }
}

/// Encrypts `plaintext` under `key` with a fresh random nonce, and returns
/// the nonce and the ciphertext.
pub fn encrypt_vault(key: &[u8], plaintext: &[u8]) -> (r: Result<(Vec<u8>, Vec<u8>), VaultError>)
    requires
        key@.len() == KEY_LEN,
    ensures
        r matches Ok((n, c)) ==> n@.len() == NONCE_LEN && c@ == xchacha_seal(key@, n@, plaintext@)
            && xchacha_open(key@, n@, c@) == Some(plaintext@),
        r matches Ok((n, c)) ==> c@.len() == plaintext@.len() + TAG_LEN,
        !sealable(plaintext@) ==> r is Err,
        r matches Err(e) ==> e == VaultError::Random || (e == VaultError::Crypto && !sealable(plaintext@)),
{
    let nonce = random_bytes(NONCE_LEN)?;
    let ciphertext = seal_with_nonce(key, &nonce, plaintext)?;
    Ok((nonce, ciphertext))
}

/// Decrypts and authenticates `ciphertext`. A wrong key and tampered bytes
/// fail alike, with `Crypto`.
pub fn decrypt_vault(key: &[u8], nonce: &[u8], ciphertext: &[u8]) -> (r: Result<Vec<u8>, VaultError>)
    requires
        key@.len() == KEY_LEN,
        nonce@.len() == NONCE_LEN,
    ensures
        match xchacha_open(key@, nonce@, ciphertext@) {
            Some(p) => r matches Ok(q) && q@ == p,
            None => r == Err::<Vec<u8>, _>(VaultError::Crypto),
        },
{
    match xchacha_decrypt(key, nonce, ciphertext) {
        Ok(p) => Ok(p),
        Err(_) => Err(VaultError::Crypto),
    }
}

} // verus!
