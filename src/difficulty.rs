use crate::bytes::{be_value, le_value, Hash256};
use vstd::arithmetic::power2::pow2;
use vstd::prelude::*;

verus! {

/// A 256-bit unsigned puzzle target, held as its 32 little-endian bytes.
#[derive(Clone, Copy, Debug)]
pub struct Difficulty {
    pub bytes: [u8; 32],
}

impl Difficulty {
    /// The integer this difficulty stands for.
    pub open spec fn value(self) -> nat {
        le_value(self.bytes@)
    }

    /// The difficulty whose little-endian encoding is `bytes`.
    pub fn from_le_bytes(bytes: [u8; 32]) -> (r: Difficulty)
        ensures
            r.bytes == bytes,
    {
        Difficulty { bytes }
    }

    /// The difficulty whose value is `v`.
    pub fn from_u64(v: u64) -> (r: Difficulty)
        ensures
            r.value() == v,
    {
        let mut bytes: [u8; 32] = [0u8; 32];
        let mut i: usize = 8;
        assert(bytes@.subrange(8, 32) =~= Seq::new(24, |j: int| 0u8));
        proof {
            lemma_le_value_zeros(bytes@.subrange(8, 32));
            assert((v >> 64u64) == 0u64) by (bit_vector);
        }
        while i > 0
            invariant
                0 <= i <= 8,
                le_value(bytes@.subrange(i as int, 32)) == (v >> (8 * i) as u64),
            decreases i,
        {
            i = i - 1;
            let x: u64 = v >> (8 * i) as u64;
            proof {
                let sh = (8 * i) as u64;
                assert(sh + 8 <= 64);
                assert((v >> sh) >> 8u64 == v >> ((sh + 8) as u64)) by (bit_vector)
                    requires
                        sh + 8 <= 64,
                ;
                assert(x == (x & 0xff) + 256 * (x >> 8u64) && (x >> 8u64) <= 0x00ff_ffff_ffff_ffff)
                    by (bit_vector);
                assert((x & 0xff) < 256) by (bit_vector);
            }
            let byte: u8 = (x & 0xff) as u8;
            let ghost before = bytes@;
            bytes[i] = byte;
            proof {
                let s = bytes@.subrange(i as int, 32);
                assert(s.subrange(1, s.len() as int) =~= before.subrange(i + 1, 32));
                assert(s[0] == byte);
            }
        }
        assert(bytes@.subrange(0, 32) =~= bytes@);
        assert((v >> 0u64) == v) by (bit_vector);
        Difficulty { bytes }
    }

    /// The little-endian encoding of this difficulty.
    pub fn to_le_bytes(&self) -> (r: [u8; 32])
        ensures
            r == self.bytes,
    {
        self.bytes
    }
}

impl PartialEq for Difficulty {
    fn eq(&self, other: &Difficulty) -> (r: bool) {
        crate::bytes::hash_eq(&self.bytes, &other.bytes)
    }
}

impl vstd::std_specs::cmp::PartialEqSpecImpl for Difficulty {
    open spec fn obeys_eq_spec() -> bool {
        true
    }

    open spec fn eq_spec(&self, other: &Difficulty) -> bool {
        self.bytes@ == other.bytes@
    }
}

impl Eq for Difficulty {
}

/// A run of zero bytes spells zero.
proof fn lemma_le_value_zeros(s: Seq<u8>)
    requires
        forall|j: int| 0 <= j < s.len() ==> s[j] == 0,
    ensures
        le_value(s) == 0,
    decreases s.len(),
{
    if s.len() > 0 {
        lemma_le_value_zeros(s.subrange(1, s.len() as int));
    }
}

/// The difficulty rule: `hash`, read as a big-endian integer, times `difficulty`
/// must not overflow 256 bits.
pub open spec fn meets_spec(hash: Seq<u8>, difficulty: nat) -> bool {
    be_value(hash) * difficulty < pow2(256)
}

/// Relies on primitive_types::U256 (from the uint crate): `from_big_endian` and
/// `from_little_endian` read 32 bytes as an unsigned integer, and the flag of
/// `overflowing_mul` is set exactly when the full product needs more than 256 bits.
#[verifier::external_body]
fn product_fits(hash: &Hash256, difficulty: &[u8; 32]) -> (r: bool)
    ensures
        r == (be_value(hash@) * le_value(difficulty@) < pow2(256)),
{
    let h = primitive_types::U256::from_big_endian(hash);
    let d = primitive_types::U256::from_little_endian(difficulty);
    !h.overflowing_mul(d).1
}

/// Whether `hash` solves the puzzle at `difficulty`.
pub fn hash_meets_difficulty(hash: &Hash256, difficulty: &Difficulty) -> (r: bool)
    ensures
        r == meets_spec(hash@, difficulty.value()),
{
    product_fits(hash, &difficulty.bytes)
}

} // verus!
