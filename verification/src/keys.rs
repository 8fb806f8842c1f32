//! Purpose-scoped session keys and the decryption of the auxiliary payload.
use vstd::prelude::*;
use vstd::string::StringSliceAdditionalSpecFns;
use vstd::utf8::encode_utf8;
use cbc::cipher::block_padding::Pkcs7;
use cbc::cipher::{BlockDecryptMut, KeyIvInit};
use hmac::{Hmac, Mac};
use sha2::Sha256;
use crate::error::AuthError;

verus! {

/// The HMAC-SHA-256 tag of `message` under `key`.
pub uninterp spec fn hmac_sha256(key: Seq<u8>, message: Seq<u8>) -> Seq<u8>;

/// What AES-256 in CBC mode gives for `data` under `key` and `iv` once the
/// PKCS#7 padding is taken off; nothing where the key, the vector or the data
/// has a wrong length or the padding is malformed.
pub uninterp spec fn aes256_cbc_plaintext(key: Seq<u8>, iv: Seq<u8>, data: Seq<u8>) -> Option<
    Seq<u8>,
>;

/// Computes an HMAC-SHA-256 tag with the `hmac` crate: `new_from_slice`,
/// which takes a key of any length, then `chain_update` and `finalize`. The
/// tag depends on key and message alone and has 32 bytes.
#[verifier::external_body]
fn hmac_tag(key: &[u8], message: &[u8]) -> (tag: Vec<u8>)
    ensures
        tag@ == hmac_sha256(key@, message@),
        tag@.len() == 32,
{
    let mac = Hmac::<Sha256>::new_from_slice(key).expect("HMAC takes a key of any length");
    mac.chain_update(message).finalize().into_bytes().to_vec()
}

/// Decrypts with `cbc::Decryptor<aes::Aes256>`: `new_from_slices`, which
/// refuses a key that is not 32 bytes long and a vector that is not 16, then
/// `decrypt_padded_vec_mut` with PKCS#7, which refuses data that is no whole
/// number of 16-byte blocks and malformed padding. The outcome depends on the
/// three arguments alone.
#[verifier::external_body]
fn cbc_decrypt(key: &[u8], iv: &[u8], data: &[u8]) -> (r: Option<Vec<u8>>)
    ensures
        match r {
            Some(plain) => aes256_cbc_plaintext(key@, iv@, data@) == Some(plain@),
            None => aes256_cbc_plaintext(key@, iv@, data@) is None,
        },
        key@.len() != 32 || iv@.len() != 16 || data@.len() % 16 != 0 ==> r is None,
{
    match cbc::Decryptor::<aes::Aes256>::new_from_slices(key, iv) {
        Ok(cipher) => cipher.decrypt_padded_vec_mut::<Pkcs7>(data).ok(),
        Err(_) => None,
    }
}

/// The key that a shared secret gives for a purpose: the tag of the label's
/// UTF-8 bytes under the secret.
pub open spec fn session_key(secret: Seq<u8>, label: Seq<char>) -> Seq<u8> {
    hmac_sha256(secret, encode_utf8(label))
}

/// The key for the auxiliary payload.
pub open spec fn payload_key(secret: Seq<u8>) -> Seq<u8> {
    session_key(secret, "extra data key:"@)
}

/// The initialization vector for the auxiliary payload: the first 16 bytes
/// of the value derived for it.
pub open spec fn payload_iv(secret: Seq<u8>) -> Seq<u8> {
    session_key(secret, "extra data iv:"@).take(16)
}

/// Derives the key for one purpose from the shared secret.
pub fn create_session_key(secret: &[u8], name: &str) -> (key: Vec<u8>)
    ensures
        key@ == session_key(secret@, name@),
        key@.len() == 32,
{
    hmac_tag(secret, name.as_bytes())
}

/// Derivation is a function of the secret and the label: equal inputs give
/// equal keys.
pub proof fn lemma_session_key_deterministic(
    secret_a: Seq<u8>,
    label_a: Seq<char>,
    secret_b: Seq<u8>,
    label_b: Seq<char>,
)
    requires
        secret_a == secret_b,
        label_a == label_b,
    ensures
        session_key(secret_a, label_a) == session_key(secret_b, label_b),
{
}

/// Overwrites key material with zeros, so that none of it outlives its use.
pub fn wipe(secret: &mut Vec<u8>)
    ensures
        final(secret)@.len() == old(secret)@.len(),
        forall|i: int| 0 <= i < final(secret)@.len() ==> final(secret)@[i] == 0u8,
{
    let mut i: usize = 0;
    while i < secret.len()
        invariant
            i <= secret@.len(),
            secret@.len() == old(secret)@.len(),
            forall|j: int| 0 <= j < i ==> secret@[j] == 0u8,
        decreases secret@.len() - i,
    {
        secret.set(i, 0u8);
        i += 1;
    }
}

/// The plaintext of a payload: nothing for an empty payload, else what the
/// cipher gives.
pub open spec fn cbc_plaintext(key: Seq<u8>, iv: Seq<u8>, data: Seq<u8>) -> Option<Seq<u8>> {
    if data.len() == 0 {
        None
    } else {
        aes256_cbc_plaintext(key, iv, data)
    }
}

/// What `decrypt` returns for a plaintext that the cipher gave or refused.
pub open spec fn decrypt_outcome(plain: Option<Seq<u8>>, r: Result<Vec<u8>, AuthError>) -> bool {
    match plain {
        Some(p) => r matches Ok(out) && out@ == p,
        None => r == Err::<Vec<u8>, AuthError>(AuthError::Decryption),
    }
}

/// Decrypts a payload under a key and an initialization vector. A key, a
/// vector or a payload of the wrong length is a decryption error, an empty
/// payload too, as is malformed padding: no partial plaintext is ever
/// returned.
pub fn decrypt(key: &[u8], iv: &[u8], ciphertext: &[u8]) -> (r: Result<Vec<u8>, AuthError>)
    ensures
        decrypt_outcome(cbc_plaintext(key@, iv@, ciphertext@), r),
        key@.len() != 32 || iv@.len() != 16 || ciphertext@.len() % 16 != 0 ==> r is Err,
        ciphertext@.len() == 0 ==> r is Err,
{
    if ciphertext.len() == 0 {
        return Err(AuthError::Decryption);
    }
    match cbc_decrypt(key, iv, ciphertext) {
        Some(plain) => Ok(plain),
        None => Err(AuthError::Decryption),
    }
}

/// Decrypts the auxiliary payload of a handshake with the key and the vector
/// that the shared secret gives for it.
pub fn decrypt_cbc(secret: &[u8], data: &[u8]) -> (r: Result<Vec<u8>, AuthError>)
    ensures
        decrypt_outcome(cbc_plaintext(payload_key(secret@), payload_iv(secret@), data@), r),
        data@.len() == 0 || data@.len() % 16 != 0 ==> r is Err,
{
    let mut extra_data_key = create_session_key(secret, "extra data key:");
    let mut extra_data_iv = create_session_key(secret, "extra data iv:");
    extra_data_iv.truncate(16);
    let r = decrypt(extra_data_key.as_slice(), extra_data_iv.as_slice(), data);
    wipe(&mut extra_data_key);
    wipe(&mut extra_data_iv);
    r
}

} // verus!
