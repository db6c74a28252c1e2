//! AES-128 in CBC mode, as the `libaes` crate computes it.

use vstd::prelude::*;

verus! {

/// The ciphertext that `libaes` produces for `plaintext` under `key` and `iv`:
/// the plaintext with PKCS#7 padding, enciphered block by block in CBC mode.
pub uninterp spec fn cbc_encrypt_of(key: Seq<u8>, iv: Seq<u8>, plaintext: Seq<u8>) -> Seq<u8>;

/// What `libaes` hands back when it deciphers `ciphertext` under `key` and `iv`
/// and strips the PKCS#7 padding.
pub uninterp spec fn cbc_decrypt_of(key: Seq<u8>, iv: Seq<u8>, ciphertext: Seq<u8>) -> Seq<u8>;

/// The length of the ciphertext of a plaintext of `len` bytes: the next
/// multiple of 16 that is larger than `len`.
pub open spec fn cbc_ciphertext_len(len: nat) -> nat {
    (len + 16 - len % 16) as nat
}

/// Enciphers `plaintext` with AES-128-CBC.
///
/// Calls `libaes::Cipher::new_128` and `libaes::Cipher::cbc_encrypt`. Trusted:
/// the result is the ciphertext that the crate computes from these three
/// arguments alone, and it is one padding's worth longer than the plaintext, so
/// that its length is a multiple of 16. The crate reads the first 16 bytes of
/// `iv` and panics on a shorter one, and it cannot allocate a ciphertext of
/// more bytes than a vector holds.
#[verifier::external_body]
pub fn encrypt(key: &[u8; 16], plaintext: &[u8], iv: &[u8]) -> (ciphertext: Vec<u8>)
    requires
        iv@.len() >= 16,
        plaintext@.len() + 16 <= isize::MAX,
    ensures
        ciphertext@ == cbc_encrypt_of(key@, iv@, plaintext@),
        ciphertext@.len() == cbc_ciphertext_len(plaintext@.len()),
{
    libaes::Cipher::new_128(key).cbc_encrypt(iv, plaintext)
}

/// Deciphers `ciphertext` with AES-128-CBC.
///
/// Calls `libaes::Cipher::new_128` and `libaes::Cipher::cbc_decrypt`. Trusted:
/// the result is what the crate computes from these three arguments alone; it
/// is never longer than the ciphertext, and empty when the ciphertext is not a
/// whole number of blocks; and where the ciphertext is what `encrypt` gives for
/// some plaintext under the same key and `iv`, the result is that plaintext.
/// The crate reads the first 16 bytes of `iv` and panics on a shorter one.
#[verifier::external_body]
pub fn decrypt(key: &[u8; 16], ciphertext: &[u8], iv: &[u8]) -> (plaintext: Vec<u8>)
    requires
        iv@.len() >= 16,
    ensures
        plaintext@ == cbc_decrypt_of(key@, iv@, ciphertext@),
        plaintext@.len() <= ciphertext@.len(),
        ciphertext@.len() % 16 != 0 ==> plaintext@.len() == 0,
        forall|m: Seq<u8>|
            ciphertext@ == #[trigger] cbc_encrypt_of(key@, iv@, m) ==> plaintext@ == m,
{
    libaes::Cipher::new_128(key).cbc_decrypt(iv, ciphertext)
}

} // verus!
