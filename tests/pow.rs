use rand::rngs::SmallRng;
use rand::SeedableRng;
use sha3::Digest;
use sha3_pow::{
    first_solution, hash_meets_difficulty, mine_with_rng, oracle_outcome, try_nonce, Compute, Difficulty,
    DifficultyOracle, PowError, Seal, SealDecodeError, Sha3Algorithm, SEAL_LEN,
};
use std::sync::Arc;

struct FixedOracle {
    answer: Result<Difficulty, String>,
}

impl DifficultyOracle for FixedOracle {
    fn difficulty_at(&self, _parent: &[u8; 32]) -> Result<Difficulty, String> {
        self.answer.clone()
    }
}

fn small(v: u64) -> Difficulty {
    Difficulty::from_u64(v)
}

fn max_difficulty() -> Difficulty {
    Difficulty::from_le_bytes([0xff; 32])
}

fn algorithm(d: Difficulty) -> Sha3Algorithm<FixedOracle> {
    Sha3Algorithm::new(Arc::new(FixedOracle { answer: Ok(d) }))
}

fn hash_with_low_byte(v: u8) -> [u8; 32] {
    let mut h = [0u8; 32];
    h[31] = v;
    h
}

#[test]
fn zero_difficulty_is_met_by_every_hash() {
    let zero = small(0);
    assert!(hash_meets_difficulty(&[0u8; 32], &zero));
    assert!(hash_meets_difficulty(&[0xffu8; 32], &zero));
    assert!(hash_meets_difficulty(&hash_with_low_byte(7), &zero));
}

#[test]
fn difficulty_one_is_met_by_every_hash() {
    let one = small(1);
    assert!(hash_meets_difficulty(&[0xffu8; 32], &one));
    assert!(hash_meets_difficulty(&[0u8; 32], &one));
}

#[test]
fn max_difficulty_is_met_only_by_tiny_hashes() {
    let max = max_difficulty();
    assert!(hash_meets_difficulty(&[0u8; 32], &max));
    assert!(hash_meets_difficulty(&hash_with_low_byte(1), &max));
    assert!(!hash_meets_difficulty(&hash_with_low_byte(2), &max));
    assert!(!hash_meets_difficulty(&[0xffu8; 32], &max));
}

#[test]
fn hash_is_read_big_endian_and_difficulty_little_endian() {
    // hash = 2^128 (big-endian), difficulty = 2^128 (little-endian): product is 2^256.
    let mut hash = [0u8; 32];
    hash[15] = 1;
    let mut d = [0u8; 32];
    d[16] = 1;
    assert!(!hash_meets_difficulty(&hash, &Difficulty::from_le_bytes(d)));
    // difficulty = 2^128 - 1: product is 2^256 - 2^128, which fits.
    let mut d2 = [0u8; 32];
    for b in d2.iter_mut().take(16) {
        *b = 0xff;
    }
    assert!(hash_meets_difficulty(&hash, &Difficulty::from_le_bytes(d2)));
    // hash = 2 at the first byte instead is 2^249; times 2^7 overflows, times 2^6 does not.
    let mut big = [0u8; 32];
    big[0] = 2;
    assert!(!hash_meets_difficulty(&big, &small(128)));
    assert!(hash_meets_difficulty(&big, &small(64)));
}

#[test]
fn from_u64_writes_little_endian_bytes() {
    let d = Difficulty::from_u64(0x0807_0605_0403_0201);
    let mut expected = [0u8; 32];
    for (i, b) in expected.iter_mut().take(8).enumerate() {
        *b = (i + 1) as u8;
    }
    assert_eq!(d.to_le_bytes(), expected);
    assert_eq!(Difficulty::from_u64(0).to_le_bytes(), [0u8; 32]);
    let mut top = [0u8; 32];
    for b in top.iter_mut().take(8) {
        *b = 0xff;
    }
    assert_eq!(Difficulty::from_u64(u64::MAX).to_le_bytes(), top);
}

#[test]
fn seal_encoding_lays_out_fields_in_order() {
    let mut d = [0u8; 32];
    d[0] = 5;
    let seal = Seal { difficulty: Difficulty::from_le_bytes(d), work: [0xaa; 32], nonce: [0xbb; 32] };
    let raw = seal.encode();
    assert_eq!(raw.len(), SEAL_LEN);
    assert_eq!(&raw[0..32], &d[..]);
    assert_eq!(&raw[32..64], &[0xaa; 32][..]);
    assert_eq!(&raw[64..96], &[0xbb; 32][..]);
}

#[test]
fn seal_round_trip() {
    let seal = Seal { difficulty: small(9), work: [3u8; 32], nonce: hash_with_low_byte(4) };
    assert_eq!(Seal::decode(&seal.encode()), Ok(seal));
}

#[test]
fn decode_rejects_truncated_input() {
    let seal = Seal { difficulty: small(1), work: [1u8; 32], nonce: [2u8; 32] };
    let raw = seal.encode();
    assert_eq!(Seal::decode(&raw[..95]), Err(SealDecodeError::Truncated));
    assert_eq!(Seal::decode(&[]), Err(SealDecodeError::Truncated));
}

#[test]
fn decode_ignores_trailing_bytes() {
    let seal = Seal { difficulty: small(1), work: [1u8; 32], nonce: [2u8; 32] };
    let mut raw = seal.encode();
    raw.push(0x55);
    assert_eq!(Seal::decode(&raw), Ok(seal));
}

#[test]
fn compute_agrees_with_plain_sha3() {
    let pre_hash = [0x11u8; 32];
    let nonce = [0x22u8; 32];
    let input = Compute { difficulty: small(5), pre_hash, nonce };
    let seal = input.compute();
    let mut preimage = Vec::new();
    preimage.extend_from_slice(&small(5).to_le_bytes());
    preimage.extend_from_slice(&pre_hash);
    preimage.extend_from_slice(&nonce);
    let expected: [u8; 32] = sha3::Sha3_256::digest(&preimage).into();
    assert_eq!(seal.work, expected);
    assert_eq!(seal.nonce, nonce);
    assert_eq!(seal.difficulty, small(5));
    assert_eq!(input.compute(), seal);
}

#[test]
fn computed_seal_verifies() {
    let pre_hash = [7u8; 32];
    let d = small(1);
    let seal = Compute { difficulty: d, pre_hash, nonce: [9u8; 32] }.compute();
    let alg = algorithm(d);
    assert_eq!(alg.verify(&[0u8; 32], &pre_hash, &seal.encode(), d), Ok(true));
}

#[test]
fn flipped_work_bit_fails_verification() {
    let pre_hash = [7u8; 32];
    let d = small(0);
    let seal = Compute { difficulty: d, pre_hash, nonce: [9u8; 32] }.compute();
    let alg = algorithm(d);
    for i in [0usize, 13, 31] {
        for bit in 0..8u8 {
            let mut tampered = seal;
            tampered.work[i] ^= 1 << bit;
            assert!(hash_meets_difficulty(&tampered.work, &d));
            assert_eq!(alg.verify(&[0u8; 32], &pre_hash, &tampered.encode(), d), Ok(false));
        }
    }
}

#[test]
fn verify_rejects_other_pre_hash_or_difficulty() {
    let pre_hash = [7u8; 32];
    let d = small(1);
    let seal = Compute { difficulty: d, pre_hash, nonce: [9u8; 32] }.compute();
    let alg = algorithm(d);
    assert_eq!(alg.verify(&[0u8; 32], &[8u8; 32], &seal.encode(), d), Ok(false));
    assert_eq!(alg.verify(&[0u8; 32], &pre_hash, &seal.encode(), small(0)), Ok(false));
    let mut other_field = seal;
    other_field.difficulty = small(0);
    assert_eq!(alg.verify(&[0u8; 32], &pre_hash, &other_field.encode(), d), Ok(false));
}

#[test]
fn verify_rejects_work_that_misses_difficulty() {
    let pre_hash = [7u8; 32];
    let d = max_difficulty();
    let seal = Compute { difficulty: d, pre_hash, nonce: [9u8; 32] }.compute();
    let alg = algorithm(d);
    assert!(!hash_meets_difficulty(&seal.work, &d));
    assert_eq!(alg.verify(&[0u8; 32], &pre_hash, &seal.encode(), d), Ok(false));
}

#[test]
fn verify_rejects_truncated_seal() {
    let pre_hash = [7u8; 32];
    let d = small(1);
    let seal = Compute { difficulty: d, pre_hash, nonce: [9u8; 32] }.compute();
    let alg = algorithm(d);
    let raw = seal.encode();
    assert_eq!(alg.verify(&[0u8; 32], &pre_hash, &raw[..95], d), Ok(false));
    assert_eq!(alg.verify(&[0u8; 32], &pre_hash, &[], d), Ok(false));
}

#[test]
fn trivial_difficulty_mines_on_first_round() {
    let pre_hash = [0u8; 32];
    let d = small(1);
    let alg = algorithm(d);
    let mined = alg.mine(&[0u8; 32], &pre_hash, d, 1).unwrap();
    let raw = mined.expect("difficulty one is met by every hash");
    assert_eq!(raw.len(), SEAL_LEN);
    assert_eq!(alg.verify(&[0u8; 32], &pre_hash, &raw, d), Ok(true));
}

#[test]
fn zero_rounds_mine_nothing() {
    let d = small(0);
    let alg = algorithm(d);
    assert_eq!(alg.mine(&[0u8; 32], &[0u8; 32], d, 0), Ok(None));
}

#[test]
fn max_difficulty_mines_nothing_with_fixed_seed() {
    let mut rng = SmallRng::seed_from_u64(42);
    assert_eq!(mine_with_rng(&[0u8; 32], max_difficulty(), 100, &mut rng), None);
}

#[test]
fn mine_with_seeded_rng_finds_verifying_seal() {
    let pre_hash = [5u8; 32];
    let mut rng = SmallRng::seed_from_u64(1);
    let d = small(1);
    let raw = mine_with_rng(&pre_hash, d, 3, &mut rng).unwrap();
    assert_eq!(algorithm(d).verify(&[0u8; 32], &pre_hash, &raw, d), Ok(true));
}

#[test]
fn try_nonce_returns_encoded_seal_when_met() {
    let pre_hash = [1u8; 32];
    let nonce = [2u8; 32];
    let d = small(0);
    let expected = Compute { difficulty: d, pre_hash, nonce }.compute().encode();
    assert_eq!(try_nonce(&pre_hash, d, &nonce), Some(expected));
    assert_eq!(try_nonce(&pre_hash, max_difficulty(), &nonce), None);
}

#[test]
fn difficulty_comes_from_oracle() {
    let alg = algorithm(small(12));
    assert_eq!(alg.difficulty(&[0u8; 32]), Ok(small(12)));
    let failing = Sha3Algorithm::new(Arc::new(FixedOracle { answer: Err("state pruned".to_string()) }));
    assert_eq!(
        failing.difficulty(&[0u8; 32]),
        Err(PowError::Environment("Fetching difficulty from runtime failed: state pruned".to_string()))
    );
}

#[test]
fn oracle_outcome_maps_failure_to_environment_error() {
    assert_eq!(oracle_outcome(Ok(small(3))), Ok(small(3)));
    assert_eq!(
        oracle_outcome(Err("down".to_string())),
        Err(PowError::Environment("Fetching difficulty from runtime failed: down".to_string()))
    );
}

#[test]
fn cloned_algorithm_shares_oracle() {
    let alg = algorithm(small(4));
    let copy = alg.clone();
    assert_eq!(copy.difficulty(&[1u8; 32]), Ok(small(4)));
}

#[test]
fn first_solution_picks_first_meeting_nonce() {
    let pre_hash = [3u8; 32];
    let d = small(0);
    let nonces = [[1u8; 32], [2u8; 32]];
    let expected = Compute { difficulty: d, pre_hash, nonce: [1u8; 32] }.compute().encode();
    assert_eq!(first_solution(&pre_hash, d, &nonces), Some(expected));
}

#[test]
fn first_solution_skips_nonces_that_miss() {
    let pre_hash = [3u8; 32];
    let d = max_difficulty();
    let nonces = [[1u8; 32], [2u8; 32], [4u8; 32]];
    assert_eq!(first_solution(&pre_hash, d, &nonces), None);
    assert_eq!(first_solution(&pre_hash, d, &[]), None);
}

#[test]
fn mined_seal_is_the_first_draw_at_zero_difficulty() {
    let pre_hash = [6u8; 32];
    let d = small(0);
    let mut rng = SmallRng::seed_from_u64(9);
    let mut copy = SmallRng::seed_from_u64(9);
    let mut first = [0u8; 32];
    rand::RngCore::fill_bytes(&mut copy, &mut first);
    let expected = Compute { difficulty: d, pre_hash, nonce: first }.compute().encode();
    assert_eq!(mine_with_rng(&pre_hash, d, 5, &mut rng), Some(expected));
}
