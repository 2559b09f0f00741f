//! PKCS#7 padding to the 16-byte block size of the cipher.
//!
//! Padding appends `n` bytes of value `n`, where `n` in `1..=16` brings the
//! length up to the next multiple of the block size. A message whose length
//! is already a multiple of 16 receives a whole block of padding, so the
//! padding can always be told apart from the message.

use vstd::prelude::*;
use vstd::slice::{slice_subrange, slice_to_vec};

verus! {

/// Block size of the cipher in bytes.
pub const BLOCK_SIZE: usize = 16;

/// Number of padding bytes appended to a message of `len` bytes.
pub open spec fn pad_len(len: nat) -> nat {
    (16 - len % 16) as nat
}

/// `n / d` rounded up, for a positive `d`.
pub open spec fn ceil_div(n: nat, d: nat) -> nat {
    ((n + d - 1) / (d as int)) as nat
}

/// Length of a message of `len` bytes after padding: the least multiple of
/// 16 above `len`, which is `16 * ceil((len + 1) / 16)`.
pub open spec fn padded_len(len: nat) -> nat {
    16 * ceil_div(len + 1, 16)
}

/// The padded form of `data`: `data` followed by `pad_len` bytes, each
/// holding the value `pad_len`.
pub open spec fn pkcs7_pad(data: Seq<u8>) -> Seq<u8> {
    data + Seq::new(pad_len(data.len()), |i: int| pad_len(data.len()) as u8)
}

/// Whether `padded` is the padded form of some message: a positive number
/// of whole blocks whose last byte `n` lies in `1..=16` and whose last `n`
/// bytes all hold `n`.
pub open spec fn is_padded(padded: Seq<u8>) -> bool {
    &&& padded.len() > 0
    &&& padded.len() % 16 == 0
    &&& 1 <= padded.last() <= 16
    &&& forall|i: int|
        padded.len() - padded.last() <= i < padded.len() ==> padded[i] == padded.last()
}

/// The message that `padded` is the padded form of, if there is one.
pub open spec fn pkcs7_unpad(padded: Seq<u8>) -> Option<Seq<u8>> {
    if is_padded(padded) {
        Some(padded.take(padded.len() - padded.last()))
    } else {
        None
    }
}

/// The padded length is the message length plus its padding, a multiple of
/// the block size, and longer than the message by 1 to 16 bytes.
pub proof fn lemma_padded_len(len: nat)
    ensures
        padded_len(len) == len + pad_len(len),
        1 <= pad_len(len) <= 16,
        padded_len(len) % 16 == 0,
        len < padded_len(len) <= len + 16,
{
}

/// A message that already fills whole blocks grows by one full block of
/// padding, and the empty message pads to exactly one block.
pub proof fn lemma_padding_boundary(len: nat)
    ensures
        len % 16 == 0 ==> padded_len(len) == len + 16,
        padded_len(0) == 16,
{
}

/// Padding yields a well-formed padded message of the padded length.
pub proof fn lemma_pad_is_padded(data: Seq<u8>)
    ensures
        pkcs7_pad(data).len() == padded_len(data.len()),
        is_padded(pkcs7_pad(data)),
{
}

/// Removing the padding of a padded message gives the message back.
pub proof fn lemma_unpad_pad(data: Seq<u8>)
    ensures
        pkcs7_unpad(pkcs7_pad(data)) == Some(data),
{
    lemma_pad_is_padded(data);
    assert(pkcs7_pad(data).take(data.len() as int) =~= data);
}

/// Padding again what was unpadded restores a well-formed padded message:
/// together with `lemma_unpad_pad`, padding is one-to-one between messages
/// and well-formed padded messages.
pub proof fn lemma_pad_unpad(padded: Seq<u8>)
    requires
        is_padded(padded),
    ensures
        pkcs7_unpad(padded) matches Some(data) && pkcs7_pad(data) == padded,
{
    let data = padded.take(padded.len() - padded.last());
    assert(pkcs7_pad(data) =~= padded);
}

/// Pads `data` to a whole number of blocks.
pub fn pad(data: &[u8]) -> (padded: Vec<u8>)
    ensures
        padded@ == pkcs7_pad(data@),
        padded@.len() == padded_len(data@.len()),
{
    let n: usize = BLOCK_SIZE - data.len() % BLOCK_SIZE;
    let mut padded: Vec<u8> = slice_to_vec(data);
    let mut i: usize = 0;
    while i < n
        invariant
            i <= n,
            1 <= n <= 16,
            n == pad_len(data@.len()),
            padded@ == data@ + Seq::new(i as nat, |j: int| n as u8),
        decreases n - i,
    {
        padded.push(n as u8);
        i += 1;
    }
    proof {
        lemma_pad_is_padded(data@);
    }
    padded
}

/// Strips the padding from `padded`. Gives `None` exactly when `padded` is
/// not a well-formed padded message.
pub fn unpad(padded: &[u8]) -> (data: Option<Vec<u8>>)
    ensures
        match data {
            Some(message) => pkcs7_unpad(padded@) == Some(message@),
            None => pkcs7_unpad(padded@) is None,
        },
{
    let len: usize = padded.len();
    if len == 0 || len % BLOCK_SIZE != 0 {
        return None;
    }
    let n: u8 = padded[len - 1];
    if n == 0 || n > 16 {
        return None;
    }
    let start: usize = len - n as usize;
    let mut i: usize = start;
    while i < len
        invariant
            start <= i <= len,
            len == padded@.len(),
            start == len - n,
            n == padded@.last(),
            forall|j: int| start <= j < i ==> padded@[j] == n,
        decreases len - i,
    {
        if padded[i] != n {
            return None;
        }
        i += 1;
    }
    Some(slice_to_vec(slice_subrange(padded, 0, start)))
}

} // verus!
