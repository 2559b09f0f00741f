//! Passphrase-keyed encryption of file contents.
//!
//! A passphrase becomes a 256-bit key ([`kdf`]). Each file's bytes are
//! padded ([`padding`]), encrypted with AES-256 in CBC mode under an
//! initialization vector drawn afresh for that file ([`encryptor`]), and
//! laid out as one flat ciphertext record, the vector followed by the
//! ciphertext ([`record`]).
//!
//! The library works on bytes in memory. Reading and writing files, walking
//! directories and talking to the operator are left to the caller.
//!
//! The hash, the key-derivation function, the block cipher mode and the
//! random generator come from other crates and are taken on trust; they are
//! gathered in [`primitives`]. Everything else is verified against the
//! contracts stated over them.

pub mod encryptor;
pub mod kdf;
pub mod padding;
pub mod primitives;
pub mod record;
