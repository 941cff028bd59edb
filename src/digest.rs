use crate::bytes::{append_hash, Hash256};
use crate::difficulty::Difficulty;
use crate::seal::Seal;
use vstd::prelude::*;

verus! {

/// The SHA3-256 digest of `data`.
pub uninterp spec fn sha3_256_of(data: Seq<u8>) -> Seq<u8>;

/// Relies on sha3::Sha3_256::digest: the 32-byte SHA3-256 digest of `data`,
/// which depends on those bytes alone.
#[verifier::external_body]
fn sha3_256(data: &Vec<u8>) -> (r: Hash256)
    ensures
        r@ == sha3_256_of(data@),
{
    <sha3::Sha3_256 as sha3::Digest>::digest(data.as_slice()).into()
}

/// The puzzle input: what a nonce is tried against.
#[derive(Clone, Copy, Debug)]
pub struct Compute {
    pub difficulty: Difficulty,
    pub pre_hash: Hash256,
    pub nonce: Hash256,
}

/// The canonical pre-image: difficulty (little-endian), pre-hash and nonce, back to back.
pub open spec fn compute_preimage(difficulty: Seq<u8>, pre_hash: Seq<u8>, nonce: Seq<u8>) -> Seq<u8> {
    difficulty + pre_hash + nonce
}

/// The work that a nonce yields for a difficulty and a pre-hash.
pub open spec fn work_of(difficulty: Seq<u8>, pre_hash: Seq<u8>, nonce: Seq<u8>) -> Seq<u8> {
    sha3_256_of(compute_preimage(difficulty, pre_hash, nonce))
}

impl Compute {
    /// The seal that this input yields: its difficulty and nonce, with the digest as work.
    pub fn compute(self) -> (r: Seal)
        ensures
            r.difficulty == self.difficulty,
            r.nonce == self.nonce,
            r.work@ == work_of(self.difficulty.bytes@, self.pre_hash@, self.nonce@),
    {
        let mut data: Vec<u8> = Vec::new();
        append_hash(&mut data, &self.difficulty.bytes);
        append_hash(&mut data, &self.pre_hash);
        append_hash(&mut data, &self.nonce);
        let work = sha3_256(&data);
        Seal { nonce: self.nonce, difficulty: self.difficulty, work }
    }
}

} // verus!
