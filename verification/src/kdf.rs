//! Key derivation: from a passphrase to a 256-bit key.
//!
//! Two strategies are offered. The iterated, salted one
//! ([`derive_key_from_passphrase`]) runs PBKDF2 over HMAC-SHA-256 for
//! [`PBKDF2_ITERATIONS`] rounds with a 16-byte salt, which makes every guess
//! at the passphrase slow. The single-pass one ([`derive_key`]) takes one
//! SHA-256 digest of the passphrase; it is fast, unsalted and offers no
//! resistance to guessing, so prefer the first. [`derive`] selects between
//! them by whether a salt is supplied.

use crate::primitives::{
    pbkdf2_hmac_sha256, pbkdf2_sha256_key, random_block, sha256, sha256_digest,
};
use vstd::prelude::*;
use vstd::string::StringSliceAdditionalSpecFns;

verus! {

/// Length of a derived key in bytes.
pub const KEY_SIZE: usize = 32;

/// Length of a salt in bytes.
pub const SALT_SIZE: usize = 16;

/// Iteration count of the salted strategy.
pub const PBKDF2_ITERATIONS: u32 = 100_000;

/// Why a key could not be derived.
#[derive(Clone, Copy, Debug, PartialEq, Eq, Structural)]
pub enum KeyError {
    /// A salt was supplied that is not exactly [`SALT_SIZE`] bytes long.
    InvalidSaltLength,
}

/// What key derivation yields for a passphrase and an optional salt.
///
/// With a salt of 16 bytes: the PBKDF2 key. With a salt of any other
/// length: an error. Without a salt: the SHA-256 digest of the passphrase.
pub open spec fn derived_key(passphrase: Seq<u8>, salt: Option<Seq<u8>>) -> Result<
    Seq<u8>,
    KeyError,
> {
    match salt {
        Some(s) => if s.len() == SALT_SIZE {
            Ok(pbkdf2_hmac_sha256(passphrase, s, PBKDF2_ITERATIONS))
        } else {
            Err(KeyError::InvalidSaltLength)
        },
        None => Ok(sha256(passphrase)),
    }
}

/// Whether `result` is what key derivation returns for `passphrase` and
/// `salt`: the postcondition shared by the functions of this module.
pub open spec fn derive_returns(
    passphrase: Seq<u8>,
    salt: Option<Seq<u8>>,
    result: Result<[u8; 32], KeyError>,
) -> bool {
    match result {
        Ok(key) => derived_key(passphrase, salt) == Ok::<Seq<u8>, KeyError>(key@),
        Err(e) => derived_key(passphrase, salt) == Err::<Seq<u8>, KeyError>(e),
    }
}

/// Key derivation is deterministic: whatever two derivations return for the
/// same passphrase and the same salt is the same, a key of 32 bytes or the
/// same error.
pub proof fn lemma_derive_deterministic(
    passphrase: Seq<u8>,
    salt: Option<Seq<u8>>,
    first: Result<[u8; 32], KeyError>,
    second: Result<[u8; 32], KeyError>,
)
    requires
        derive_returns(passphrase, salt, first),
        derive_returns(passphrase, salt, second),
    ensures
        first == second,
        first matches Ok(key) ==> key@.len() == KEY_SIZE,
{
    if let Ok(a) = first {
        let b = second->Ok_0;
        assert(a =~= b);
    }
}

/// Derives a key from `passphrase`: with `Some(salt)` by the iterated,
/// salted strategy, with `None` by the single-pass strategy.
///
/// Fails exactly when a salt is supplied whose length is not 16.
pub fn derive(passphrase: &[u8], salt: Option<&[u8]>) -> (result: Result<[u8; 32], KeyError>)
    ensures
        derive_returns(
            passphrase@,
            match salt {
                Some(s) => Some(s@),
                None => None,
            },
            result,
        ),
{
    match salt {
        Some(s) => {
            if s.len() != SALT_SIZE {
                return Err(KeyError::InvalidSaltLength);
            }
            Ok(pbkdf2_sha256_key(passphrase, s, PBKDF2_ITERATIONS))
        },
        None => Ok(sha256_digest(passphrase)),
    }
}

/// The iterated, salted strategy: PBKDF2 over HMAC-SHA-256 with
/// [`PBKDF2_ITERATIONS`] rounds, on the UTF-8 bytes of `passphrase`.
///
/// Fails exactly when `salt` is not 16 bytes long.
pub fn derive_key_from_passphrase(passphrase: &str, salt: &[u8]) -> (result: Result<
    [u8; 32],
    KeyError,
>)
    ensures
        derive_returns(passphrase.spec_bytes(), Some(salt@), result),
        salt@.len() == SALT_SIZE <==> result is Ok,
{
    derive(passphrase.as_bytes(), Some(salt))
}

/// The single-pass strategy: the SHA-256 digest of the UTF-8 bytes of
/// `passphrase`, used whole as the key.
pub fn derive_key(passphrase: &str) -> (key: [u8; 32])
    ensures
        key@ == sha256(passphrase.spec_bytes()),
        derive_returns(passphrase.spec_bytes(), None, Ok(key)),
{
    sha256_digest(passphrase.as_bytes())
}

/// Draws a fresh random salt for the salted strategy.
///
/// The bytes come from a cryptographically secure generator; nothing more
/// can be said of them than their number.
pub fn generate_salt() -> (salt: [u8; 16])
    ensures
        salt@.len() == SALT_SIZE,
{
    random_block()
}

} // verus!
