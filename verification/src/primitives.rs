//! The cryptographic primitives this library takes from other crates.
//!
//! Nothing in this module is proved. Each function is a thin call into an
//! outside crate, and its contract is an assumption about that crate. What
//! a primitive computes is given a name here (`sha256`, `pbkdf2_hmac_sha256`,
//! `aes256_cbc`, `aes256_cbc_inverse`); the rest of the library states its
//! own contracts over those names.

use aes::cipher::block_padding::NoPadding;
use aes::cipher::{BlockDecryptMut, BlockEncryptMut, KeyIvInit};
use rand::Rng;
use sha2::Digest;
use vstd::prelude::*;

verus! {

/// The SHA-256 digest of `data`: 32 bytes.
pub uninterp spec fn sha256(data: Seq<u8>) -> Seq<u8>;

/// The first 32 bytes of PBKDF2 output with HMAC-SHA-256 as the
/// pseudo-random function, for the given password, salt and iteration count.
pub uninterp spec fn pbkdf2_hmac_sha256(password: Seq<u8>, salt: Seq<u8>, rounds: u32) -> Seq<u8>;

/// AES-256 in CBC mode applied to `blocks`, a whole number of 16-byte
/// blocks, under a 32-byte key and a 16-byte initialization vector. No
/// padding is involved.
pub uninterp spec fn aes256_cbc(key: Seq<u8>, iv: Seq<u8>, blocks: Seq<u8>) -> Seq<u8>;

/// AES-256 CBC decryption of `blocks`, a whole number of 16-byte blocks,
/// under a 32-byte key and a 16-byte initialization vector.
pub uninterp spec fn aes256_cbc_inverse(key: Seq<u8>, iv: Seq<u8>, blocks: Seq<u8>) -> Seq<u8>;

/// Calls `sha2::Sha256::digest` on `data`.
///
/// Assumed: the 32 bytes returned are the SHA-256 digest of `data`, a
/// function of `data` alone.
#[verifier::external_body]
pub(crate) fn sha256_digest(data: &[u8]) -> (digest: [u8; 32])
    ensures
        digest@ == sha256(data@),
{
    sha2::Sha256::digest(data).into()
}

/// Calls `pbkdf2::pbkdf2_hmac::<sha2::Sha256>` to fill a 32-byte key.
///
/// Assumed: the key is a function of the password, the salt and the
/// iteration count alone. The outside function accepts every password, salt
/// and count (a count of zero is treated as one).
#[verifier::external_body]
pub(crate) fn pbkdf2_sha256_key(password: &[u8], salt: &[u8], rounds: u32) -> (key: [u8; 32])
    ensures
        key@ == pbkdf2_hmac_sha256(password@, salt@, rounds),
{
    let mut key = [0u8; 32];
    pbkdf2::pbkdf2_hmac::<sha2::Sha256>(password, salt, rounds, &mut key);
    key
}

/// Calls `rand::thread_rng().fill` on a 16-byte array.
///
/// Nothing is assumed of the bytes returned: they come from the thread's
/// cryptographically secure generator, seeded by the operating system, and
/// two calls are unrelated. The outside function panics if the operating
/// system cannot seed the generator.
#[verifier::external_body]
pub(crate) fn random_block() -> (block: [u8; 16]) {
    let mut block = [0u8; 16];
    rand::thread_rng().fill(&mut block);
    block
}

/// Calls `encrypt_padded_mut::<NoPadding>` of `cbc::Encryptor<aes::Aes256>`
/// on a copy of `blocks`.
///
/// Assumed: the output is a function of key, initialization vector and
/// input alone, and is as long as the input. The outside function fails on
/// input that is not a whole number of blocks, which `requires` rules out.
#[verifier::external_body]
pub(crate) fn cbc_encrypt_blocks(key: &[u8; 32], iv: &[u8; 16], blocks: &[u8]) -> (out: Vec<u8>)
    requires
        blocks@.len() % 16 == 0,
    ensures
        out@ == aes256_cbc(key@, iv@, blocks@),
        out@.len() == blocks@.len(),
{
    let mut out = blocks.to_vec();
    let len = out.len();
    cbc::Encryptor::<aes::Aes256>::new(key.into(), iv.into())
        .encrypt_padded_mut::<NoPadding>(&mut out, len)
        .expect("a whole number of blocks");
    out
}

/// Calls `decrypt_padded_mut::<NoPadding>` of `cbc::Decryptor<aes::Aes256>`
/// on a copy of `blocks`.
///
/// Assumed: the output is a function of key, initialization vector and
/// input alone, is as long as the input, and undoes encryption: if the
/// input is what CBC encryption under the same key and initialization
/// vector makes of some whole blocks `p`, the output is `p`. The outside
/// function fails on input that is not a whole number of blocks, which
/// `requires` rules out.
#[verifier::external_body]
pub(crate) fn cbc_decrypt_blocks(key: &[u8; 32], iv: &[u8; 16], blocks: &[u8]) -> (out: Vec<u8>)
    requires
        blocks@.len() % 16 == 0,
    ensures
        out@ == aes256_cbc_inverse(key@, iv@, blocks@),
        out@.len() == blocks@.len(),
        forall|p: Seq<u8>|
            p.len() % 16 == 0 && #[trigger] aes256_cbc(key@, iv@, p) == blocks@ ==> out@ == p,
{
    let mut out = blocks.to_vec();
    cbc::Decryptor::<aes::Aes256>::new(key.into(), iv.into())
        .decrypt_padded_mut::<NoPadding>(&mut out)
        .expect("a whole number of blocks");
    out
}

} // verus!
