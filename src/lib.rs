//! Proof-of-work over SHA3-256: the difficulty rule, the seal's wire format,
//! and the verify / mine operations of the algorithm.

pub mod algorithm;
mod bytes;
pub mod difficulty;
pub mod digest;
mod entropy;
pub mod seal;

pub use bytes::{be_value, le_value, Hash256};
pub use difficulty::{hash_meets_difficulty, meets_spec, Difficulty};
pub use digest::{sha3_256_of, work_of, Compute};
pub use seal::{seal_decoding, seal_encoding, Seal, SealDecodeError, SEAL_LEN};
pub use algorithm::{
    first_solution, mine_with_rng, oracle_outcome, seal_is_valid, try_nonce, DifficultyOracle, PowError, Sha3Algorithm,
};
