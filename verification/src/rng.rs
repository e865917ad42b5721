//! The randomness boundary. The spawner draws its samples through the one
//! wrapper below; everything downstream of a sample is verified for every
//! value the wrapper's contract allows, so no distribution is assumed.

use vstd::prelude::*;

verus! {

#[verifier::external_type_specification]
#[verifier::external_body]
pub struct ExStdRng(rand::rngs::StdRng);

/// Relies on rand's `Rng::gen_range` over an inclusive integer range: the
/// sample lies inside the range. It panics only on an empty range, which
/// the precondition excludes; nothing is assumed about the distribution or
/// about the generator's state afterwards.
#[verifier::external_body]
pub(crate) fn sample_range_i64(rng: &mut rand::rngs::StdRng, lo: i64, hi: i64) -> (r: i64)
    requires
        lo <= hi,
    ensures
        lo <= r <= hi,
{
    rand::Rng::gen_range(rng, lo..=hi)
}

} // verus!
