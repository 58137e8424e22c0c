//! The hash by which a file is looked for.

use sha2::{Digest, Sha256};
use vstd::prelude::*;

verus! {

/// The SHA-256 digest of `bytes`, as `sha2` computes it.
pub uninterp spec fn sha256(bytes: Seq<u8>) -> Seq<u8>;

/// Calls `sha2::Sha256::digest`. The digest is a function of the bytes, and
/// it is 32 bytes long.
#[verifier::external_body]
fn sha256_digest(bytes: &[u8]) -> (r: Vec<u8>)
    ensures
        r@ == sha256(bytes@),
        r@.len() == 32,
{
    Sha256::digest(bytes).to_vec()
}

/// The character that writes `n`, a number below 16, in base 16, with
/// capital letters.
pub open spec fn hex_digit_upper(n: int) -> char {
    seq!['0', '1', '2', '3', '4', '5', '6', '7', '8', '9', 'A', 'B', 'C', 'D', 'E', 'F'][n]
}

/// `bytes` in base 16 with capital letters: two characters for each byte,
/// the upper half first.
pub open spec fn hex_upper(bytes: Seq<u8>) -> Seq<char>
    decreases bytes.len(),
{
    if bytes.len() == 0 {
        Seq::empty()
    } else {
        hex_upper(bytes.drop_last()).push(hex_digit_upper(bytes.last() as int / 16)).push(
            hex_digit_upper(bytes.last() as int % 16),
        )
    }
}

/// Calls `hex::encode_upper`, which writes each byte as two characters of
/// `0123456789ABCDEF`, the upper half first.
#[verifier::external_body]
fn encode_upper(bytes: &[u8]) -> (r: String)
    ensures
        r@ == hex_upper(bytes@),
{
    hex::encode_upper(bytes)
}

/// Base 16 takes two characters for a byte.
pub proof fn lemma_hex_upper_len(bytes: Seq<u8>)
    ensures
        hex_upper(bytes).len() == 2 * bytes.len(),
    decreases bytes.len(),
{
    if bytes.len() > 0 {
        lemma_hex_upper_len(bytes.drop_last());
    }
}

/// The SHA-256 digest of `content` in base 16 with capital letters: the
/// form in which the server is asked for the files with that content.
pub fn hash256(content: &[u8]) -> (r: String)
    ensures
        r@ == hex_upper(sha256(content@)),
        r@.len() == 64,
{
    let digest = sha256_digest(content);
    proof {
        lemma_hex_upper_len(digest@);
    }
    encode_upper(digest.as_slice())
}

} // verus!
