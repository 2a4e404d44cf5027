//! Contracts for the hash and AEAD primitives of the `sha2` and `aes-gcm` crates.

use aes_gcm::aead::{Aead, AeadCore, KeyInit, OsRng};
use aes_gcm::{Aes256Gcm, Nonce};
use sha2::{Digest, Sha256};
use vstd::prelude::*;

verus! {

/// Largest plaintext, in bytes, that AES-GCM accepts (`aes_gcm::P_MAX`).
pub open spec fn gcm_max_plaintext() -> nat {
    0x10_0000_0000
}

/// The SHA-256 digest of a byte string.
pub uninterp spec fn sha256_digest(data: Seq<u8>) -> Seq<u8>;

/// The AES-256-GCM encryption (ciphertext followed by its 16-byte tag) of a
/// plaintext under a key and a nonce, with no associated data.
pub uninterp spec fn aes256gcm_seal(key: Seq<u8>, nonce: Seq<u8>, plaintext: Seq<u8>) -> Seq<u8>;

/// The AES-256-GCM decryption of a ciphertext (with its trailing tag) under a
/// key and a nonce, with no associated data: `None` when authentication fails.
pub uninterp spec fn aes256gcm_open(key: Seq<u8>, nonce: Seq<u8>, ciphertext: Seq<u8>) -> Option<
    Seq<u8>,
>;

/// The error type of the `aead` traits (`aes_gcm::Error`), carried opaquely.
#[verifier::external_type_specification]
#[verifier::external_body]
pub struct ExAeadError(aes_gcm::Error);

/// Calls `sha2::Sha256::digest`: the 32-byte SHA-256 digest of `data`.
#[verifier::external_body]
pub(crate) fn sha256(data: &[u8]) -> (digest: [u8; 32])
    ensures
        digest@ == sha256_digest(data@),
{
    Sha256::digest(data).into()
}

/// Calls `Aead::encrypt` of `aes_gcm::Aes256Gcm` keyed with `key`.
/// Claimed: it fails exactly when the plaintext is longer than `P_MAX`
/// (the check in `encrypt_in_place_detached`); otherwise the output is the
/// ciphertext followed by the 16-byte tag, so it is 16 bytes longer than the
/// plaintext, and decrypting it under the same key and nonce gives the
/// plaintext back.
#[verifier::external_body]
pub(crate) fn aes256gcm_encrypt(key: &[u8; 32], nonce: &[u8; 12], plaintext: &[u8]) -> (r: Result<
    Vec<u8>,
    aes_gcm::Error,
>)
    ensures
        r is Ok <==> plaintext@.len() <= gcm_max_plaintext(),
        r matches Ok(c) ==> c@ == aes256gcm_seal(key@, nonce@, plaintext@),
        r matches Ok(c) ==> c@.len() == plaintext@.len() + 16,
        r matches Ok(c) ==> aes256gcm_open(key@, nonce@, c@) == Some(plaintext@),
{
    Aes256Gcm::new(key.into()).encrypt(Nonce::from_slice(nonce), plaintext)
}

/// Calls `Aead::decrypt` of `aes_gcm::Aes256Gcm` keyed with `key`.
/// Claimed: the outcome is the one named by `aes256gcm_open`, and a plaintext
/// is the ciphertext less its 16-byte tag, so 16 bytes shorter.
#[verifier::external_body]
pub(crate) fn aes256gcm_decrypt(key: &[u8; 32], nonce: &[u8], ciphertext: &[u8]) -> (r: Result<
    Vec<u8>,
    aes_gcm::Error,
>)
    requires
        nonce@.len() == 12,
    ensures
        r matches Ok(p) ==> aes256gcm_open(key@, nonce@, ciphertext@) == Some(p@),
        r matches Ok(p) ==> p@.len() + 16 == ciphertext@.len(),
        r is Err ==> aes256gcm_open(key@, nonce@, ciphertext@) is None,
{
    Aes256Gcm::new(key.into()).decrypt(Nonce::from_slice(nonce), ciphertext)
}

/// Calls `AeadCore::generate_nonce` of `Aes256Gcm` with the operating system's
/// random number generator. Nothing is claimed of the bytes.
#[verifier::external_body]
pub(crate) fn random_nonce() -> (nonce: [u8; 12]) {
    Aes256Gcm::generate_nonce(&mut OsRng).into()
}

/// Calls `ToString::to_string` on an `aead::Error`; its `Display` impl writes
/// the fixed text `aead::Error`, which is what is claimed.
#[verifier::external_body]
pub(crate) fn aead_error_text(e: &aes_gcm::Error) -> (text: String)
    ensures
        text@ == "aead::Error"@,
{
    e.to_string()
}

} // verus!
