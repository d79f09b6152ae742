use rand::Rng;
use vstd::prelude::*;

verus! {

/// Relies on rand::Rng::gen_range on the thread-local generator: a value in
/// `lo..hi`; it panics on an empty range, which `requires` leaves out.
#[verifier::external_body]
pub(crate) fn random_in(lo: i64, hi: i64) -> (r: i64)
    requires
        lo < hi,
    ensures
        lo <= r < hi,
{
    rand::thread_rng().gen_range(lo..hi)
}

/// Relies on rand::random::<bool>: a coin flip, of which nothing is promised.
#[verifier::external_body]
pub(crate) fn random_bool() -> (r: bool) {
    rand::random::<bool>()
}

} // verus!
