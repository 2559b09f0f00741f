//! The ciphertext record: what is persisted for one encrypted file.
//!
//! A record is the initialization vector followed directly by the
//! ciphertext, with no header, length field, checksum or separator:
//!
//! ```text
//! offset 0..16   initialization vector
//! offset 16..    ciphertext, a positive whole number of 16-byte blocks
//! ```

use vstd::prelude::*;
use vstd::slice::{slice_subrange, slice_to_vec};

verus! {

/// Length of an initialization vector in bytes.
pub const IV_SIZE: usize = 16;

/// Length of the shortest record: the initialization vector and one block.
pub const MIN_RECORD_SIZE: usize = 32;

/// An initialization vector together with the ciphertext made under it.
#[derive(Clone, Debug, PartialEq, Eq)]
pub struct CiphertextRecord {
    /// The initialization vector the ciphertext was made with.
    pub iv: [u8; 16],
    /// The encrypted, padded content.
    pub ciphertext: Vec<u8>,
}

impl View for CiphertextRecord {
    type V = Seq<u8>;

    /// The record as the flat byte sequence that is written out.
    open spec fn view(&self) -> Seq<u8> {
        self.iv@ + self.ciphertext@
    }
}

impl CiphertextRecord {
    /// A record is well formed when its ciphertext is a positive whole
    /// number of blocks, as every encryption produces.
    pub open spec fn wf(&self) -> bool {
        &&& self.ciphertext@.len() > 0
        &&& self.ciphertext@.len() % 16 == 0
    }

    /// Lays the record out as bytes: the initialization vector, then the
    /// ciphertext.
    pub fn to_bytes(&self) -> (bytes: Vec<u8>)
        ensures
            bytes@ == self@,
            bytes@.len() == IV_SIZE + self.ciphertext@.len(),
    {
        let mut bytes: Vec<u8> = slice_to_vec(self.iv.as_slice());
        bytes.extend_from_slice(self.ciphertext.as_slice());
        bytes
    }

    /// Reads a record back from its bytes. Succeeds exactly when `bytes`
    /// holds an initialization vector followed by a positive whole number
    /// of blocks, that is on a length of at least 32 that is a multiple of
    /// 16.
    pub fn parse(bytes: &[u8]) -> (parsed: Option<CiphertextRecord>)
        ensures
            match parsed {
                Some(record) => record.wf() && record@ == bytes@,
                None => bytes@.len() < MIN_RECORD_SIZE || bytes@.len() % 16 != 0,
            },
    {
        let len: usize = bytes.len();
        if len < MIN_RECORD_SIZE || len % 16 != 0 {
            return None;
        }
        let mut iv: [u8; 16] = [0u8; 16];
        let mut i: usize = 0;
        while i < IV_SIZE
            invariant
                i <= IV_SIZE,
                bytes@.len() >= MIN_RECORD_SIZE,
                forall|j: int| 0 <= j < i ==> iv@[j] == bytes@[j],
            decreases IV_SIZE - i,
        {
            iv[i] = bytes[i];
            i += 1;
        }
        let ciphertext: Vec<u8> = slice_to_vec(slice_subrange(bytes, IV_SIZE, len));
        let record = CiphertextRecord { iv, ciphertext };
        Some(record)
    }
}

/// The bytes of a record determine it: records with the same bytes have the
/// same initialization vector and the same ciphertext.
pub proof fn lemma_bytes_determine_record(a: CiphertextRecord, b: CiphertextRecord)
    requires
        a@ == b@,
    ensures
        a.iv == b.iv,
        a.ciphertext@ == b.ciphertext@,
{
    assert(a.iv@ =~= a@.take(16));
    assert(b.iv@ =~= b@.take(16));
    assert(a.iv =~= b.iv);
    assert(a.ciphertext@ =~= a@.skip(16));
    assert(b.ciphertext@ =~= b@.skip(16));
}

} // verus!
