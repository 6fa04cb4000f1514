use vstd::prelude::*;

verus! {

/// Relies on nannou::rand::random_range: a value drawn from the thread-local generator,
/// at least `low` and below `high` (it calls `gen_range(low..high)`, which panics on an
/// empty range, hence `low < high`).
#[verifier::external_body]
pub(crate) fn random_range(low: i64, high: i64) -> (r: i64)
    requires
        low < high,
    ensures
        low <= r < high,
{
    nannou::rand::random_range(low, high)
}

} // verus!
