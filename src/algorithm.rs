use crate::bytes::{be_value, Hash256};
use crate::difficulty::{hash_meets_difficulty, meets_spec, Difficulty};
use crate::digest::{work_of, Compute};
use crate::entropy::{fresh_rng, random_nonce};
use crate::seal::{lemma_decode_encode, seal_decoding, seal_encoding, Seal, SEAL_LEN};
use std::sync::Arc;
use vstd::arithmetic::power2::{lemma2_to64, lemma_pow2_adds, lemma_pow2_pos, pow2};
use vstd::prelude::*;
use vstd::string::StringExecFns;

verus! {

/// The source of the difficulty that a block built on a given parent must meet.
pub trait DifficultyOracle {
    /// Whether `r` is an answer this oracle may give for the parent with hash
    /// `parent`. An oracle that states nothing of its answers keeps this default.
    open spec fn answers(&self, parent: Seq<u8>, r: Result<Difficulty, String>) -> bool {
        true
    }

    /// The difficulty for a child of the block with hash `parent`, or why it
    /// could not be had.
    fn difficulty_at(&self, parent: &Hash256) -> (r: Result<Difficulty, String>)
        ensures
            self.answers(parent@, r),
    ;
}

/// A failure of the environment around the algorithm, as opposed to an invalid seal.
#[derive(Clone, Debug, PartialEq, Eq)]
pub enum PowError {
    /// The difficulty oracle or the random source failed; the message says how.
    Environment(String),
}

/// Whether `raw` carries a seal that solves the puzzle for `pre_hash` at `difficulty`:
/// it decodes, its work meets the difficulty, and its work and difficulty are exactly
/// what recomputing from its nonce gives.
pub open spec fn seal_is_valid(pre_hash: Seq<u8>, raw: Seq<u8>, difficulty: Difficulty) -> bool {
    match seal_decoding(raw) {
        None => false,
        Some(v) => {
            &&& meets_spec(v.1, difficulty.value())
            &&& v.1 == work_of(difficulty.bytes@, pre_hash, v.2)
            &&& v.0 == difficulty.bytes@
        },
    }
}

/// The text put before the oracle's message when it fails.
pub open spec fn oracle_failure_prefix() -> Seq<char> {
    "Fetching difficulty from runtime failed: "@
}

/// The text put before the random source's message when seeding fails.
pub open spec fn rng_failure_prefix() -> Seq<char> {
    "initialize rng failed for mining: "@
}

/// Whether `r` is what the algorithm makes of the oracle's answer `fetched`: a
/// difficulty is passed on, a failure becomes an environment error whose message
/// is the oracle's, prefixed.
pub open spec fn oracle_outcome_spec(fetched: Result<Difficulty, String>, r: Result<Difficulty, PowError>) -> bool {
    match fetched {
        Ok(d) => r == Ok::<Difficulty, PowError>(d),
        Err(e) => r matches Err(PowError::Environment(m)) && m@ == oracle_failure_prefix() + e@,
    }
}

/// Whether `nonce` solves the puzzle for `pre_hash` at `difficulty`.
pub open spec fn solves(pre_hash: Seq<u8>, difficulty: Difficulty, nonce: Seq<u8>) -> bool {
    meets_spec(work_of(difficulty.bytes@, pre_hash, nonce), difficulty.value())
}

/// The wire form of the seal that `nonce` yields for `pre_hash` at `difficulty`.
pub open spec fn mined_encoding(pre_hash: Seq<u8>, difficulty: Difficulty, nonce: Seq<u8>) -> Seq<u8> {
    seal_encoding((difficulty.bytes@, work_of(difficulty.bytes@, pre_hash, nonce), nonce))
}

/// The wire form of the seal of the first of `nonces` that solves the puzzle, if any does.
pub open spec fn first_solution_spec(pre_hash: Seq<u8>, difficulty: Difficulty, nonces: Seq<Seq<u8>>) -> Option<
    Seq<u8>,
>
    decreases nonces.len(),
{
    if nonces.len() == 0 {
        None
    } else if solves(pre_hash, difficulty, nonces[0]) {
        Some(mined_encoding(pre_hash, difficulty, nonces[0]))
    } else {
        first_solution_spec(pre_hash, difficulty, nonces.drop_first())
    }
}

/// Whether `out` is what a search of at most `round` draws can give: for some
/// sequence of drawn 32-byte nonces, no longer than `round`, it is the seal of the
/// first that solves the puzzle; and nothing is found only after `round` draws.
pub open spec fn is_mining_outcome(pre_hash: Seq<u8>, difficulty: Difficulty, round: nat, out: Option<Seq<u8>>) -> bool {
    exists|drawn: Seq<Seq<u8>>|
        {
            &&& #[trigger] first_solution_spec(pre_hash, difficulty, drawn) == out
            &&& drawn.len() <= round
            &&& forall|k: int| 0 <= k < drawn.len() ==> drawn[k].len() == 32
            &&& out is None ==> drawn.len() == round
        }
}

/// The bytes that an optional byte vector holds.
pub open spec fn bytes_of(r: Option<Vec<u8>>) -> Option<Seq<u8>> {
    match r {
        Some(b) => Some(b@),
        None => None,
    }
}

/// The SHA3-256 proof-of-work algorithm, over a shared difficulty oracle.
pub struct Sha3Algorithm<C> {
    client: Arc<C>,
}

/// Relies on `Arc::clone`: a new handle to the same shared value.
#[verifier::external_body]
fn share<C>(handle: &Arc<C>) -> (r: Arc<C>)
    ensures
        r == *handle,
{
    Arc::clone(handle)
}

impl<C> Sha3Algorithm<C> {
    /// The oracle this algorithm asks for difficulties.
    pub closed spec fn oracle(&self) -> C {
        *self.client
    }

    /// An algorithm that asks `client` for difficulties.
    pub fn new(client: Arc<C>) -> (r: Self)
        ensures
            r.oracle() == *client,
    {
        Self { client }
    }

    /// Checks a seal against `pre_hash` and `difficulty`. Every defect of the seal
    /// gives `Ok(false)`; the parent is not consulted.
    pub fn verify(&self, _parent: &Hash256, pre_hash: &Hash256, seal: &[u8], difficulty: Difficulty) -> (r:
        Result<bool, PowError>)
        ensures
            r == Ok::<bool, PowError>(seal_is_valid(pre_hash@, seal@, difficulty)),
    {
        let seal = match Seal::decode(seal) {
            Ok(seal) => seal,
            Err(_) => return Ok(false),
        };
        if !hash_meets_difficulty(&seal.work, &difficulty) {
            return Ok(false);
        }
        let compute = Compute { difficulty, pre_hash: *pre_hash, nonce: seal.nonce };
        if !(compute.compute() == seal) {
            return Ok(false);
        }
        Ok(true)
    }

    /// Tries up to `round` random nonces, from a freshly seeded generator, and
    /// returns the encoded seal of the first that solves the puzzle.
    pub fn mine(&self, _parent: &Hash256, pre_hash: &Hash256, difficulty: Difficulty, round: u32) -> (r:
        Result<Option<Vec<u8>>, PowError>)
        ensures
            r matches Ok(out) ==> is_mining_outcome(pre_hash@, difficulty, round as nat, bytes_of(out)),
            r matches Ok(Some(b)) ==> b@.len() == SEAL_LEN && seal_is_valid(pre_hash@, b@, difficulty),
            r is Ok && round > 0 && difficulty.value() <= 1 ==> r matches Ok(Some(_)),
            r is Ok && round == 0 ==> r matches Ok(None),
            r matches Err(PowError::Environment(m)) ==> exists|e: Seq<char>| m@ == rng_failure_prefix() + e,
    {
        let mut rng = match fresh_rng() {
            Ok(rng) => rng,
            Err(msg) => {
                let mut text = String::from_str("initialize rng failed for mining: ");
                text.append(msg.as_str());
                assert(text@ == rng_failure_prefix() + msg@);
                return Err(PowError::Environment(text));
            },
        };
        Ok(mine_with_rng(pre_hash, difficulty, round, &mut rng))
    }
}

impl<C: DifficultyOracle> Sha3Algorithm<C> {
    /// Asks the oracle for the difficulty of a child of `parent`; a failure of
    /// the oracle is handed on as an environment error.
    pub fn difficulty(&self, parent: &Hash256) -> (r: Result<Difficulty, PowError>)
        ensures
            exists|fetched: Result<Difficulty, String>|
                #![trigger self.oracle().answers(parent@, fetched)]
                self.oracle().answers(parent@, fetched) && oracle_outcome_spec(fetched, r),
    {
        let fetched = self.client.difficulty_at(parent);
        let r = oracle_outcome(fetched);
        assert(self.oracle().answers(parent@, fetched) && oracle_outcome_spec(fetched, r));
        r
    }
}

impl<C> Clone for Sha3Algorithm<C> {
    fn clone(&self) -> (r: Self)
        ensures
            r.oracle() == self.oracle(),
    {
        Self::new(share(&self.client))
    }
}

/// What the algorithm makes of the oracle's answer: a difficulty is passed on,
/// a failure becomes an environment error that carries the oracle's message.
pub fn oracle_outcome(fetched: Result<Difficulty, String>) -> (r: Result<Difficulty, PowError>)
    ensures
        oracle_outcome_spec(fetched, r),
{
    match fetched {
        Ok(d) => Ok(d),
        Err(msg) => {
            let mut text = String::from_str("Fetching difficulty from runtime failed: ");
            text.append(msg.as_str());
            Err(PowError::Environment(text))
        },
    }
}

/// A string of `n` bytes, read as an integer, is below 2^(8n).
proof fn lemma_be_value_bound(s: Seq<u8>)
    ensures
        be_value(s) < pow2(8 * s.len()),
    decreases s.len(),
{
    if s.len() == 0 {
        lemma_pow2_pos(0);
    } else {
        let t = s.subrange(0, s.len() - 1);
        lemma_be_value_bound(t);
        lemma_pow2_adds(8 * t.len(), 8);
        lemma2_to64();
        let p = pow2(8 * t.len());
        assert(be_value(s) == be_value(t) * 256 + s[s.len() - 1] as nat);
        assert(be_value(t) * 256 + (s[s.len() - 1] as nat) < p * 256) by (nonlinear_arith)
            requires
                be_value(t) < p,
                s[s.len() - 1] < 256,
        ;
    }
}

/// Tries one nonce: the encoded seal if its work meets the difficulty, else nothing.
pub fn try_nonce(pre_hash: &Hash256, difficulty: Difficulty, nonce: &Hash256) -> (r: Option<Vec<u8>>)
    ensures
        bytes_of(r) == (if solves(pre_hash@, difficulty, nonce@) {
            Some(mined_encoding(pre_hash@, difficulty, nonce@))
        } else {
            None
        }),
        r matches Some(b) ==> b@.len() == SEAL_LEN && seal_is_valid(pre_hash@, b@, difficulty),
        difficulty.value() <= 1 ==> r is Some,
{
    let compute = Compute { difficulty, pre_hash: *pre_hash, nonce: *nonce };
    let seal = compute.compute();
    proof {
        lemma_be_value_bound(seal.work@);
        if difficulty.value() <= 1 {
            assert(be_value(seal.work@) * difficulty.value() <= be_value(seal.work@)) by (nonlinear_arith)
                requires
                    difficulty.value() <= 1,
            ;
        }
    }
    if hash_meets_difficulty(&seal.work, &difficulty) {
        proof {
            lemma_mined_seal_verifies(seal, *pre_hash);
        }
        Some(seal.encode())
    } else {
        None
    }
}

/// Appending a nonce to draws of which none solves the puzzle leaves that nonce
/// as the only candidate.
proof fn lemma_first_solution_push(pre_hash: Seq<u8>, difficulty: Difficulty, drawn: Seq<Seq<u8>>, nonce: Seq<u8>)
    requires
        first_solution_spec(pre_hash, difficulty, drawn) is None,
    ensures
        first_solution_spec(pre_hash, difficulty, drawn.push(nonce)) == (if solves(pre_hash, difficulty, nonce) {
            Some(mined_encoding(pre_hash, difficulty, nonce))
        } else {
            None
        }),
    decreases drawn.len(),
{
    if drawn.len() == 0 {
        assert(drawn.push(nonce).drop_first() =~= Seq::<Seq<u8>>::empty());
    } else {
        assert(drawn.push(nonce).drop_first() =~= drawn.drop_first().push(nonce));
        lemma_first_solution_push(pre_hash, difficulty, drawn.drop_first(), nonce);
    }
}

/// The encoded seal of the first of `nonces` that solves the puzzle, or nothing
/// if none does.
pub fn first_solution(pre_hash: &Hash256, difficulty: Difficulty, nonces: &[Hash256]) -> (r: Option<Vec<u8>>)
    ensures
        bytes_of(r) == first_solution_spec(pre_hash@, difficulty, nonces@.map_values(|n: Hash256| n@)),
        r matches Some(b) ==> b@.len() == SEAL_LEN && seal_is_valid(pre_hash@, b@, difficulty),
{
    let ghost views = nonces@.map_values(|n: Hash256| n@);
    let n: usize = nonces.len();
    let mut i: usize = 0;
    assert(views.subrange(0, n as int) =~= views);
    while i < n
        invariant
            0 <= i <= n,
            n == nonces@.len(),
            views == nonces@.map_values(|n: Hash256| n@),
            first_solution_spec(pre_hash@, difficulty, views) == first_solution_spec(
                pre_hash@,
                difficulty,
                views.subrange(i as int, n as int),
            ),
        decreases n - i,
    {
        let ghost rest = views.subrange(i as int, n as int);
        assert(rest[0] == nonces@[i as int]@);
        assert(rest.drop_first() =~= views.subrange(i + 1, n as int));
        if let Some(encoded) = try_nonce(pre_hash, difficulty, &nonces[i]) {
            return Some(encoded);
        }
        i = i + 1;
    }
    assert(views.subrange(n as int, n as int) =~= Seq::<Seq<u8>>::empty());
    None
}

/// Draws up to `round` nonces from `rng`, one at a time, and returns the encoded
/// seal of the first that solves the puzzle, stopping there.
pub fn mine_with_rng(pre_hash: &Hash256, difficulty: Difficulty, round: u32, rng: &mut rand::rngs::SmallRng) -> (r:
    Option<Vec<u8>>)
    ensures
        is_mining_outcome(pre_hash@, difficulty, round as nat, bytes_of(r)),
        r matches Some(b) ==> b@.len() == SEAL_LEN && seal_is_valid(pre_hash@, b@, difficulty),
        round > 0 && difficulty.value() <= 1 ==> r is Some,
        round == 0 ==> r is None,
{
    let ghost mut drawn: Seq<Seq<u8>> = Seq::empty();
    let mut i: u32 = 0;
    while i < round
        invariant
            i <= round,
            drawn.len() == i,
            forall|k: int| 0 <= k < drawn.len() ==> drawn[k].len() == 32,
            first_solution_spec(pre_hash@, difficulty, drawn) is None,
            i > 0 ==> difficulty.value() > 1,
        decreases round - i,
    {
        let nonce = random_nonce(rng);
        let found = try_nonce(pre_hash, difficulty, &nonce);
        proof {
            lemma_first_solution_push(pre_hash@, difficulty, drawn, nonce@);
            drawn = drawn.push(nonce@);
        }
        if let Some(encoded) = found {
            assert(first_solution_spec(pre_hash@, difficulty, drawn) == bytes_of(Some(encoded)));
            return Some(encoded);
        }
        i = i + 1;
    }
    assert(first_solution_spec(pre_hash@, difficulty, drawn) == bytes_of(None));
    None
}

/// A seal whose work is the digest of its own difficulty, the pre-hash and its
/// nonce, and which meets its difficulty, passes verification once encoded.
pub proof fn lemma_mined_seal_verifies(s: Seal, pre_hash: Hash256)
    requires
        s.work@ == work_of(s.difficulty.bytes@, pre_hash@, s.nonce@),
        meets_spec(s.work@, s.difficulty.value()),
    ensures
        seal_is_valid(pre_hash@, seal_encoding(s@), s.difficulty),
{
    lemma_decode_encode(s);
}

/// Flipping any one bit of a valid seal's work makes it fail verification,
/// whether or not the altered work would still meet the difficulty.
pub proof fn lemma_flipped_work_rejected(s: Seal, pre_hash: Hash256, i: int, bit: u8)
    requires
        s.work@ == work_of(s.difficulty.bytes@, pre_hash@, s.nonce@),
        0 <= i < 32,
        bit < 8,
    ensures
        !seal_is_valid(
            pre_hash@,
            seal_encoding((s@.0, s@.1.update(i, s@.1[i] ^ (1u8 << bit)), s@.2)),
            s.difficulty,
        ),
{
    let x = s@.1[i];
    assert(x ^ (1u8 << bit) != x) by (bit_vector)
        requires
            bit < 8,
    ;
    let w = s@.1.update(i, x ^ (1u8 << bit));
    let raw = seal_encoding((s@.0, w, s@.2));
    assert(raw.subrange(32, 64) =~= w);
    assert(raw.subrange(64, 96) =~= s@.2);
    assert(w[i] != s@.1[i]);
}

/// A byte string shorter than a seal never passes verification.
pub proof fn lemma_truncated_seal_rejected(pre_hash: Seq<u8>, raw: Seq<u8>, difficulty: Difficulty)
    requires
        raw.len() < 96,
    ensures
        !seal_is_valid(pre_hash, raw, difficulty),
{
}

/// At difficulty zero every hash meets the rule.
pub proof fn lemma_zero_difficulty_always_met(hash: Seq<u8>)
    ensures
        meets_spec(hash, 0),
{
    lemma_pow2_pos(256);
}

} // verus!
