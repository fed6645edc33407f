use vstd::prelude::*;

use rand_chacha::ChaCha8Rng;

verus! {

/// The seedable generator that every random draw of the library takes, so
/// that a training run can be repeated.
#[verifier::external_type_specification]
#[verifier::external_body]
pub struct ExChaCha8Rng(ChaCha8Rng);

/// Relies on rand's `Rng::gen::<bool>` for a fair coin; nothing is known of
/// the outcome.
#[verifier::external_body]
pub(crate) fn draw_bool(rng: &mut ChaCha8Rng) -> bool {
    rand::Rng::gen::<bool>(rng)
}

/// Relies on rand's `Rng::gen_range` over `lo..=hi`: the draw lies in that
/// range (the range is not empty, on which the call would panic).
#[verifier::external_body]
pub(crate) fn draw_in(rng: &mut ChaCha8Rng, lo: i64, hi: i64) -> (r: i64)
    requires
        lo <= hi,
    ensures
        lo <= r <= hi,
{
    rand::Rng::gen_range(rng, lo..=hi)
}

} // verus!
