use vstd::prelude::*;

verus! {

/// Relies on `rand::Rng::gen_range` over `thread_rng()`: with an inclusive
/// range `lo..=hi` that is not empty, the value drawn lies in it.
#[verifier::external_body]
pub(crate) fn draw_between(lo: u64, hi: u64) -> (r: u64)
    requires
        lo <= hi,
    ensures
        lo <= r <= hi,
{
    rand::Rng::gen_range(&mut rand::thread_rng(), lo..=hi)
}

} // verus!
