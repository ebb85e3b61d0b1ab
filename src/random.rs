use vstd::prelude::*;
use rand::rngs::StdRng;

verus! {

#[verifier::external_type_specification]
#[verifier::external_body]
pub struct ExStdRng(rand::rngs::StdRng);

/// Relies on rand's `SeedableRng::from_rng` for `StdRng`, fed by `OsRng`: a
/// generator seeded from the operating system, or `None` where the operating
/// system could not supply a seed. Nothing is promised of its stream.
#[verifier::external_body]
pub(crate) fn try_entropy_rng() -> (r: Option<StdRng>) {
    <StdRng as rand::SeedableRng>::from_rng(rand::rngs::OsRng).ok()
}

/// Relies on rand's `Rng::gen::<bool>`: a fair coin flip.
#[verifier::external_body]
pub(crate) fn random_bool(rng: &mut StdRng) -> (r: bool) {
    rand::Rng::gen::<bool>(rng)
}

/// Relies on rand's `Rng::gen::<usize>`: any `usize`.
#[verifier::external_body]
pub(crate) fn random_usize(rng: &mut StdRng) -> (r: usize) {
    rand::Rng::gen::<usize>(rng)
}

/// Relies on rand's `Rng::gen::<u32>`: any `u32`.
#[verifier::external_body]
pub(crate) fn random_u32(rng: &mut StdRng) -> (r: u32) {
    rand::Rng::gen::<u32>(rng)
}

} // verus!
