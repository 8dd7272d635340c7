//! The game's single source of chance.
use rand::Rng;
use vstd::prelude::*;

verus! {

/// Relies on `rand::Rng::gen_range` over an inclusive range (drawn from
/// `rand::thread_rng`): the value lies between both bounds. It panics on an
/// empty range, which `requires` rules out.
#[verifier::external_body]
pub(crate) fn random_in(lo: u8, hi: u8) -> (r: u8)
    requires
        lo <= hi,
    ensures
        lo <= r <= hi,
{
    rand::thread_rng().gen_range(lo..=hi)
}

} // verus!
