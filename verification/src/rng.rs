//! The randomness source: uniformly distributed integers over inclusive
//! ranges, drawn from the process-wide generator. A single trusted call into
//! the `rand` crate; every draw the engine needs is derived from it in
//! verified code.

use vstd::prelude::*;

verus! {

/// Relies on rand::random_range over an inclusive i64 range: the
/// thread-local generator yields a value inside the range, and panics only
/// when the range is empty, which the precondition rules out.
#[verifier::external_body]
fn random_in_range(low: i64, high: i64) -> (r: i64)
    requires
        low <= high,
    ensures
        low <= r <= high,
{
    rand::random_range(low..=high)
}

/// A uniform draw from the inclusive range `[low, high]`.
pub fn uniform_i32(low: i32, high: i32) -> (r: i32)
    requires
        low <= high,
    ensures
        low <= r <= high,
{
    let wide = random_in_range(low as i64, high as i64);
    wide as i32
}

/// A uniform draw from the inclusive range `[low, high]`.
pub fn uniform_u32(low: u32, high: u32) -> (r: u32)
    requires
        low <= high,
    ensures
        low <= r <= high,
{
    let wide = random_in_range(low as i64, high as i64);
    wide as u32
}

/// A uniform draw of a catalog index: a value in `[0, n)`.
pub fn draw_index(n: usize) -> (r: usize)
    requires
        1 <= n,
        n as int <= 0x7fff_ffff_ffff_ffff,
    ensures
        r < n,
{
    let wide = random_in_range(0, (n - 1) as i64);
    wide as usize
}

} // verus!
