//! Encryption of data bound to one machine: AES-256-GCM under a key derived
//! from the machine identifier, framed as `nonce (12 bytes) || ciphertext+tag`.

use crate::cipher::{
    aead_error_text, aes256gcm_decrypt, aes256gcm_encrypt, aes256gcm_open, aes256gcm_seal,
    gcm_max_plaintext, random_nonce, sha256, sha256_digest,
};
use vstd::prelude::*;
use vstd::utf8::*;

verus! {

/// Length of the nonce that starts every encrypted blob.
pub const NONCE_LEN: usize = 12;

/// Length of the authentication tag that ends every encrypted blob.
pub const TAG_LEN: usize = 16;

/// Errors of encryption and decryption; each carries a detail text.
#[derive(Debug, PartialEq)]
pub enum CryptoError {
    EncryptionFailed(String),
    DecryptionFailed(String),
    InvalidData(String),
}

impl CryptoError {
    /// The text shown for this error.
    pub open spec fn spec_message(&self) -> Seq<char> {
        match self {
            CryptoError::EncryptionFailed(d) => "Encryption failed: "@ + d@,
            CryptoError::DecryptionFailed(d) => "Decryption failed: "@ + d@,
            CryptoError::InvalidData(d) => "Invalid data: "@ + d@,
        }
    }

    /// The text shown for this error.
    pub fn message(&self) -> (text: String)
        ensures
            text@ == self.spec_message(),
    {
        let (mut text, detail) = match self {
            CryptoError::EncryptionFailed(d) => (String::from_str("Encryption failed: "), d),
            CryptoError::DecryptionFailed(d) => (String::from_str("Decryption failed: "), d),
            CryptoError::InvalidData(d) => (String::from_str("Invalid data: "), d),
        };
        text.append(detail.as_str());
        text
    }
}

/// The AES key that belongs to a machine identifier: SHA-256 of its UTF-8 bytes.
pub open spec fn spec_derive_key(machine_id: Seq<char>) -> Seq<u8> {
    sha256_digest(encode_utf8(machine_id))
}

/// What decrypting `data` under the key of `machine_id` yields: `None` when the
/// data is too short to hold a nonce and a tag, or when authentication fails.
pub open spec fn decrypts_to(data: Seq<u8>, machine_id: Seq<char>) -> Option<Seq<u8>> {
    if data.len() < NONCE_LEN + TAG_LEN {
        None
    } else {
        aes256gcm_open(
            spec_derive_key(machine_id),
            data.take(NONCE_LEN as int),
            data.skip(NONCE_LEN as int),
        )
    }
}

/// The key of a machine identifier is the SHA-256 digest of all of its UTF-8
/// bytes, and two different identifiers (such as two that differ only by a
/// `-`) have their keys digested from different byte strings.
pub proof fn lemma_key_digests_whole_id(a: Seq<char>, b: Seq<char>)
    ensures
        spec_derive_key(a) == sha256_digest(encode_utf8(a)),
        spec_derive_key(b) == sha256_digest(encode_utf8(b)),
        a != b ==> encode_utf8(a) != encode_utf8(b),
{
    encode_utf8_decode_utf8(a);
    encode_utf8_decode_utf8(b);
}

/// Derive the 256-bit AES key from the machine identifier using SHA-256.
pub fn derive_key(machine_id: &str) -> (key: [u8; 32])
    ensures
        key@ == spec_derive_key(machine_id@),
        key@ == sha256_digest(encode_utf8(machine_id@)),
{
    sha256(machine_id.as_bytes())
}

/// Encrypt `plaintext` under the key of `machine_id` with the given nonce.
/// The output is the nonce followed by the ciphertext and its tag.
pub fn encrypt_with_nonce(plaintext: &[u8], machine_id: &str, nonce: &[u8; 12]) -> (r: Result<
    Vec<u8>,
    CryptoError,
>)
    ensures
        r is Ok <==> plaintext@.len() <= gcm_max_plaintext(),
        r matches Ok(out) ==> out@ == nonce@ + aes256gcm_seal(
            spec_derive_key(machine_id@),
            nonce@,
            plaintext@,
        ),
        r matches Ok(out) ==> out@.len() == plaintext@.len() + NONCE_LEN + TAG_LEN,
        r matches Ok(out) ==> decrypts_to(out@, machine_id@) == Some(plaintext@),
        r is Err ==> (r matches Err(CryptoError::EncryptionFailed(d)) && d@ == "aead::Error"@),
{
    let key = derive_key(machine_id);
    match aes256gcm_encrypt(&key, nonce, plaintext) {
        Ok(ciphertext) => {
            let mut output: Vec<u8> = Vec::new();
            output.extend_from_slice(nonce.as_slice());
            output.extend_from_slice(ciphertext.as_slice());
            proof {
                assert(output@.take(NONCE_LEN as int) =~= nonce@);
                assert(output@.skip(NONCE_LEN as int) =~= ciphertext@);
            }
            Ok(output)
        },
        Err(e) => Err(CryptoError::EncryptionFailed(aead_error_text(&e))),
    }
}

/// Encrypt `plaintext` using AES-256-GCM with a key derived from the machine ID
/// and a fresh random nonce. Output format: 12-byte nonce || ciphertext+tag.
pub fn encrypt(plaintext: &[u8], machine_id: &str) -> (r: Result<Vec<u8>, CryptoError>)
    ensures
        r is Ok <==> plaintext@.len() <= gcm_max_plaintext(),
        r matches Ok(out) ==> out@ == out@.take(NONCE_LEN as int) + aes256gcm_seal(
            spec_derive_key(machine_id@),
            out@.take(NONCE_LEN as int),
            plaintext@,
        ),
        r matches Ok(out) ==> out@.len() == plaintext@.len() + NONCE_LEN + TAG_LEN,
        r matches Ok(out) ==> decrypts_to(out@, machine_id@) == Some(plaintext@),
        r is Err ==> (r matches Err(CryptoError::EncryptionFailed(d)) && d@ == "aead::Error"@),
{
    let nonce = random_nonce();
    let r = encrypt_with_nonce(plaintext, machine_id, &nonce);
    proof {
        if r is Ok {
            assert(r->Ok_0@.take(NONCE_LEN as int) =~= nonce@);
        }
    }
    r
}

/// Decrypt data that was encrypted with `encrypt()`.
/// Input format: 12-byte nonce || ciphertext+tag.
pub fn decrypt(data: &[u8], machine_id: &str) -> (r: Result<Vec<u8>, CryptoError>)
    ensures
        r matches Ok(p) ==> decrypts_to(data@, machine_id@) == Some(p@),
        r matches Ok(p) ==> p@.len() + NONCE_LEN + TAG_LEN == data@.len(),
        r is Err <==> decrypts_to(data@, machine_id@) is None,
        data@.len() < NONCE_LEN + TAG_LEN ==> (r matches Err(CryptoError::InvalidData(d))
            && d@ == "Data too short to contain nonce and tag"@),
        data@.len() >= NONCE_LEN + TAG_LEN && r is Err ==> (r matches Err(
            CryptoError::DecryptionFailed(d),
        ) && d@ == "aead::Error"@),
{
    if data.len() < 12 + 16 {
        return Err(CryptoError::InvalidData(String::from_str("Data too short to contain nonce and tag")));
    }
    let key = derive_key(machine_id);
    let (nonce_bytes, ciphertext) = data.split_at(12);
    proof {
        assert(nonce_bytes@ =~= data@.take(NONCE_LEN as int));
        assert(ciphertext@ =~= data@.skip(NONCE_LEN as int));
    }
    match aes256gcm_decrypt(&key, nonce_bytes, ciphertext) {
        Ok(p) => Ok(p),
        Err(e) => Err(CryptoError::DecryptionFailed(aead_error_text(&e))),
    }
}

} // verus!
