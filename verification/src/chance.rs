//! The one place where the simulation meets chance.

use vstd::prelude::*;

verus! {

/// A whole number drawn from the half-open range `[low, high)`.
///
/// Calls `rand::Rng::gen_range` on the generator of the current thread
/// (`rand::thread_rng`). Nothing is proved of the call: its documentation says
/// that the value lies in `[low, high)` and that it panics when `low >= high`.
/// Which value of the range comes back is left open, and two calls may differ.
/// The generator seeds itself from the system on its first use in a thread,
/// and panics there if the system gives it nothing.
#[verifier::external_body]
pub(crate) fn random_range(low: i64, high: i64) -> (r: i64)
    requires
        low < high,
    ensures
        low <= r < high,
{
    rand::Rng::gen_range(&mut rand::thread_rng(), low, high)
}

/// A number drawn from the closed range `[low, high]`.
pub fn draw_between(low: u32, high: u32) -> (r: u32)
    requires
        low <= high,
    ensures
        low <= r <= high,
{
    random_range(low as i64, high as i64 + 1) as u32
}

/// A coordinate drawn from the closed range `[low, high]`.
pub fn draw_coordinate(low: i32, high: i32) -> (r: i32)
    requires
        low <= high,
    ensures
        low <= r <= high,
{
    random_range(low as i64, high as i64 + 1) as i32
}

} // verus!
