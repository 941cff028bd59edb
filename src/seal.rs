use crate::bytes::{append_hash, hash_eq, read_hash, Hash256};
use crate::difficulty::Difficulty;
use vstd::prelude::*;

verus! {

/// Length of an encoded seal: difficulty, work and nonce, 32 bytes each.
pub const SEAL_LEN: usize = 96;

/// A solution to the puzzle, as carried in a block header.
#[derive(Clone, Copy, Debug)]
pub struct Seal {
    pub difficulty: Difficulty,
    pub work: Hash256,
    pub nonce: Hash256,
}

/// Why a byte string is not a seal.
#[derive(Clone, Copy, Debug, PartialEq, Eq, Structural)]
pub enum SealDecodeError {
    /// Fewer than the 96 bytes that a seal takes.
    Truncated,
}

impl View for Seal {
    /// The three fields' bytes: difficulty (little-endian), work, nonce.
    type V = (Seq<u8>, Seq<u8>, Seq<u8>);

    open spec fn view(&self) -> (Seq<u8>, Seq<u8>, Seq<u8>) {
        (self.difficulty.bytes@, self.work@, self.nonce@)
    }
}

/// The wire form of a seal: its three fields back to back.
pub open spec fn seal_encoding(v: (Seq<u8>, Seq<u8>, Seq<u8>)) -> Seq<u8> {
    v.0 + v.1 + v.2
}

/// The seal fields that a byte string carries, if it is long enough; bytes past
/// the first 96 are not read.
pub open spec fn seal_decoding(raw: Seq<u8>) -> Option<(Seq<u8>, Seq<u8>, Seq<u8>)> {
    if raw.len() < 96 {
        None
    } else {
        Some((raw.subrange(0, 32), raw.subrange(32, 64), raw.subrange(64, 96)))
    }
}

impl Seal {
    /// The 96-byte wire form of this seal.
    pub fn encode(&self) -> (r: Vec<u8>)
        ensures
            r@ == seal_encoding(self@),
            r@.len() == SEAL_LEN,
    {
        let mut out: Vec<u8> = Vec::new();
        append_hash(&mut out, &self.difficulty.bytes);
        append_hash(&mut out, &self.work);
        append_hash(&mut out, &self.nonce);
        out
    }

    /// Reads a seal from the front of `raw`.
    pub fn decode(raw: &[u8]) -> (r: Result<Seal, SealDecodeError>)
        ensures
            match r {
                Ok(s) => seal_decoding(raw@) == Some(s@),
                Err(e) => seal_decoding(raw@) is None && e == SealDecodeError::Truncated,
            },
    {
        if raw.len() < SEAL_LEN {
            return Err(SealDecodeError::Truncated);
        }
        let difficulty = Difficulty { bytes: read_hash(raw, 0) };
        let work = read_hash(raw, 32);
        let nonce = read_hash(raw, 64);
        Ok(Seal { difficulty, work, nonce })
    }
}

impl PartialEq for Seal {
    fn eq(&self, other: &Seal) -> (r: bool) {
        hash_eq(&self.difficulty.bytes, &other.difficulty.bytes) && hash_eq(&self.work, &other.work)
            && hash_eq(&self.nonce, &other.nonce)
    }
}

impl vstd::std_specs::cmp::PartialEqSpecImpl for Seal {
    open spec fn obeys_eq_spec() -> bool {
        true
    }

    open spec fn eq_spec(&self, other: &Seal) -> bool {
        self@ == other@
    }
}

impl Eq for Seal {
}

/// Decoding the wire form of a seal gives back its fields.
pub proof fn lemma_decode_encode(s: Seal)
    ensures
        seal_decoding(seal_encoding(s@)) == Some(s@),
{
    let raw = seal_encoding(s@);
    assert(raw.subrange(0, 32) =~= s@.0);
    assert(raw.subrange(32, 64) =~= s@.1);
    assert(raw.subrange(64, 96) =~= s@.2);
}

/// Any byte string shorter than a seal fails to decode.
pub proof fn lemma_truncated_does_not_decode(raw: Seq<u8>)
    requires
        raw.len() < 96,
    ensures
        seal_decoding(raw) is None,
{
}

} // verus!
