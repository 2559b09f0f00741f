//! The file encryptor: one file's bytes in, one ciphertext record out.
//!
//! The plaintext is padded by PKCS#7 and encrypted with AES-256 in CBC mode
//! under a key of 32 bytes and an initialization vector of 16 bytes that is
//! drawn afresh for every file. Decryption, the counterpart, is here so that
//! what encryption writes can be read back.

use crate::padding::{
    ceil_div, lemma_pad_is_padded, lemma_unpad_pad, pad, padded_len, pkcs7_pad, pkcs7_unpad, unpad,
};
use crate::primitives::{
    aes256_cbc, aes256_cbc_inverse, cbc_decrypt_blocks, cbc_encrypt_blocks, random_block,
};
use crate::record::{CiphertextRecord, IV_SIZE};
use vstd::prelude::*;

verus! {

/// Why a ciphertext could not be decrypted.
#[derive(Clone, Copy, Debug, PartialEq, Eq, Structural)]
pub enum CipherError {
    /// The ciphertext is empty or not a whole number of blocks.
    InvalidLength,
    /// The decrypted blocks do not end in well-formed padding: the key or
    /// the initialization vector is wrong, or the ciphertext was damaged.
    BadPadding,
}

/// Whether `ciphertext` is the encryption of `plaintext` under `key` and
/// `iv`: the CBC encryption of the padded plaintext, as long as the padded
/// plaintext.
pub open spec fn encrypts_to(
    key: Seq<u8>,
    iv: Seq<u8>,
    plaintext: Seq<u8>,
    ciphertext: Seq<u8>,
) -> bool {
    &&& ciphertext == aes256_cbc(key, iv, pkcs7_pad(plaintext))
    &&& ciphertext.len() == padded_len(plaintext.len())
}

/// What decrypting `ciphertext` under `key` and `iv` computes: the CBC
/// decryption with its padding stripped, or the reason there is none.
pub open spec fn decrypted(key: Seq<u8>, iv: Seq<u8>, ciphertext: Seq<u8>) -> Result<
    Seq<u8>,
    CipherError,
> {
    if ciphertext.len() == 0 || ciphertext.len() % 16 != 0 {
        Err(CipherError::InvalidLength)
    } else {
        match pkcs7_unpad(aes256_cbc_inverse(key, iv, ciphertext)) {
            Some(plaintext) => Ok(plaintext),
            None => Err(CipherError::BadPadding),
        }
    }
}

/// Whether `result` is what decryption returns for `ciphertext` under `key`
/// and `iv`: it is what `decrypted` computes, and where the ciphertext is
/// the encryption of some plaintext under the same key and the same
/// initialization vector, it is that plaintext.
pub open spec fn decrypts_to(
    key: Seq<u8>,
    iv: Seq<u8>,
    ciphertext: Seq<u8>,
    result: Result<Seq<u8>, CipherError>,
) -> bool {
    &&& result == decrypted(key, iv, ciphertext)
    &&& forall|plaintext: Seq<u8>| #[trigger]
        encrypts_to(key, iv, plaintext, ciphertext) ==> result == Ok::<Seq<u8>, CipherError>(
            plaintext,
        )
}

/// The outcome of a decryption with the plaintext taken as a sequence.
pub open spec fn outcome(result: Result<Vec<u8>, CipherError>) -> Result<Seq<u8>, CipherError> {
    match result {
        Ok(plaintext) => Ok(plaintext@),
        Err(e) => Err(e),
    }
}

/// Round trip: whatever encryption makes of a plaintext, decryption under
/// the same key and the same initialization vector gives that plaintext
/// back. This holds of every plaintext, the empty one included.
pub proof fn lemma_round_trip(
    key: Seq<u8>,
    iv: Seq<u8>,
    plaintext: Seq<u8>,
    ciphertext: Seq<u8>,
    result: Result<Seq<u8>, CipherError>,
)
    requires
        encrypts_to(key, iv, plaintext, ciphertext),
        decrypts_to(key, iv, ciphertext, result),
    ensures
        result == Ok::<Seq<u8>, CipherError>(plaintext),
{
}

/// Size of a ciphertext: for a plaintext of `L` bytes it is
/// `16 * ceil((L + 1) / 16)` bytes. It is a whole number of blocks and
/// longer than the plaintext; a plaintext that fills whole blocks gains one
/// full block, and the empty plaintext gives exactly one block.
pub proof fn lemma_ciphertext_len(
    key: Seq<u8>,
    iv: Seq<u8>,
    plaintext: Seq<u8>,
    ciphertext: Seq<u8>,
)
    requires
        encrypts_to(key, iv, plaintext, ciphertext),
    ensures
        ciphertext.len() == 16 * ceil_div(plaintext.len() + 1, 16),
        ciphertext.len() % 16 == 0,
        plaintext.len() < ciphertext.len() <= plaintext.len() + 16,
        plaintext.len() % 16 == 0 ==> ciphertext.len() == plaintext.len() + 16,
        plaintext.len() == 0 ==> ciphertext.len() == 16,
{
}

/// Size of a record written out: `16 + 16 * ceil((L + 1) / 16)` bytes for a
/// plaintext of `L` bytes, the initialization vector and the ciphertext.
pub proof fn lemma_record_len(record: CiphertextRecord, key: Seq<u8>, plaintext: Seq<u8>)
    requires
        encrypts_to(key, record.iv@, plaintext, record.ciphertext@),
    ensures
        record@.len() == 16 + 16 * ceil_div(plaintext.len() + 1, 16),
        record.wf(),
{
}

/// Draws a fresh random initialization vector. One is drawn per file and
/// never shared between files.
///
/// The bytes come from a cryptographically secure generator; nothing more
/// can be said of them than their number.
pub fn generate_iv() -> (iv: [u8; 16])
    ensures
        iv@.len() == IV_SIZE,
{
    random_block()
}

/// Encrypts `plaintext` under `key` and the given initialization vector.
///
/// The ciphertext is the CBC encryption of the padded plaintext. Its length
/// is `16 * ceil((L + 1) / 16)` for a plaintext of `L` bytes.
pub fn encrypt_with_iv(plaintext: &[u8], key: &[u8; 32], iv: &[u8; 16]) -> (ciphertext: Vec<u8>)
    ensures
        encrypts_to(key@, iv@, plaintext@, ciphertext@),
        ciphertext@.len() == 16 * ceil_div(plaintext@.len() + 1, 16),
{
    let padded = pad(plaintext);
    cbc_encrypt_blocks(key, iv, padded.as_slice())
}

/// Encrypts the content of one file under `key` with a freshly drawn
/// initialization vector, and returns both as a record.
///
/// Whatever vector was drawn, the record's ciphertext is the encryption of
/// `plaintext` under it, and the record written out takes
/// `16 + 16 * ceil((L + 1) / 16)` bytes for a plaintext of `L` bytes.
pub fn encrypt_file(plaintext: &[u8], key: &[u8; 32]) -> (record: CiphertextRecord)
    ensures
        record.wf(),
        encrypts_to(key@, record.iv@, plaintext@, record.ciphertext@),
        record@.len() == 16 + 16 * ceil_div(plaintext@.len() + 1, 16),
{
    let iv = generate_iv();
    let ciphertext = encrypt_with_iv(plaintext, key, &iv);
    CiphertextRecord { iv, ciphertext }
}

/// Decrypts `ciphertext` under `key` and `iv` and strips the padding.
///
/// Fails with `InvalidLength` exactly when the ciphertext is empty or not a
/// whole number of blocks, and with `BadPadding` exactly when the decrypted
/// blocks are not a well-formed padded message. On the encryption of a
/// plaintext under the same key and the same initialization vector it
/// returns that plaintext.
pub fn decrypt_with_iv(ciphertext: &[u8], key: &[u8; 32], iv: &[u8; 16]) -> (result: Result<
    Vec<u8>,
    CipherError,
>)
    ensures
        decrypts_to(key@, iv@, ciphertext@, outcome(result)),
{
    let len: usize = ciphertext.len();
    if len == 0 || len % 16 != 0 {
        proof {
            assert forall|plaintext: Seq<u8>| !#[trigger] encrypts_to(
                key@,
                iv@,
                plaintext,
                ciphertext@,
            ) by {
                lemma_pad_is_padded(plaintext);
            }
        }
        return Err(CipherError::InvalidLength);
    }
    let padded = cbc_decrypt_blocks(key, iv, ciphertext);
    proof {
        assert forall|plaintext: Seq<u8>| #[trigger]
            encrypts_to(key@, iv@, plaintext, ciphertext@) implies pkcs7_unpad(padded@) == Some(
            plaintext,
        ) by {
            lemma_pad_is_padded(plaintext);
            assert(padded@ == pkcs7_pad(plaintext));
            lemma_unpad_pad(plaintext);
        }
    }
    match unpad(padded.as_slice()) {
        Some(plaintext) => Ok(plaintext),
        None => Err(CipherError::BadPadding),
    }
}

/// Decrypts a record under `key`, with the initialization vector the record
/// carries. Fails and succeeds as [`decrypt_with_iv`] does: a record that
/// [`encrypt_file`] made of a plaintext under the same key gives that
/// plaintext back.
pub fn decrypt_record(record: &CiphertextRecord, key: &[u8; 32]) -> (result: Result<
    Vec<u8>,
    CipherError,
>)
    ensures
        decrypts_to(key@, record.iv@, record.ciphertext@, outcome(result)),
{
    decrypt_with_iv(record.ciphertext.as_slice(), key, &record.iv)
}

} // verus!
