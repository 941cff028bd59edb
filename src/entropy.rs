use crate::bytes::Hash256;
use vstd::prelude::*;

verus! {

/// rand's small, fast generator, used to draw nonces.
#[verifier::external_type_specification]
#[verifier::external_body]
pub struct ExSmallRng(rand::rngs::SmallRng);

/// Relies on rand's `SeedableRng::from_rng` applied to `OsRng`: a fresh generator
/// seeded from the operating system's random source. When that source fails the
/// call returns its error, rendered here with `Debug`, and does not panic.
#[verifier::external_body]
pub(crate) fn fresh_rng() -> (r: Result<rand::rngs::SmallRng, String>) {
    <rand::rngs::SmallRng as rand::SeedableRng>::from_rng(rand::rngs::OsRng).map_err(|e| format!("{:?}", e))
}

/// Relies on rand's `RngCore::fill_bytes`: 32 bytes drawn from `rng`.
/// Nothing is promised of their values.
#[verifier::external_body]
pub(crate) fn random_nonce(rng: &mut rand::rngs::SmallRng) -> (r: Hash256) {
    let mut nonce: Hash256 = [0u8; 32];
    rand::RngCore::fill_bytes(rng, &mut nonce);
    nonce
}

} // verus!
