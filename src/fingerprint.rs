use vstd::prelude::*;

verus! {

#[verifier::external_type_specification]
#[verifier::external_body]
pub struct ExAhashRandomState(ahash::RandomState);

/// Relies on `ahash::RandomState::with_seeds`, which builds a hasher state from
/// four seeds.
pub assume_specification[ ahash::RandomState::with_seeds ](
    k0: u64,
    k1: u64,
    k2: u64,
    k3: u64,
) -> ahash::RandomState;

/// Relies on `ahash::RandomState::hash_one` over a byte slice. aHash does not
/// fix its output across platforms or versions, so nothing is promised of the
/// value.
#[verifier::external_body]
fn hash_bytes(state: &ahash::RandomState, bytes: &[u8]) -> u64 {
    state.hash_one(bytes)
}

/// The seeds of the fingerprint hash. Changing any of them makes every
/// persisted fingerprint unreachable.
pub const SEED_0: u64 = 10960905448801897020;
pub const SEED_1: u64 = 6565933669389301275;
pub const SEED_2: u64 = 5017652980937232669;
pub const SEED_3: u64 = 4134542598451985848;

/// The fingerprint of an image's leading bytes, under the fixed seeds.
pub fn fingerprint(image_prefix: &[u8]) -> u64 {
    let state = ahash::RandomState::with_seeds(SEED_0, SEED_1, SEED_2, SEED_3);
    hash_bytes(&state, image_prefix)
}

} // verus!
