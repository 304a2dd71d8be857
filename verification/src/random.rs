use vstd::prelude::*;

verus! {

/// The one failure a bounded draw can report: a bound below one leaves the
/// inclusive range `[1, bound]` empty, so no integer can be drawn from it.
#[derive(Clone, Copy, Debug, PartialEq, Eq, Structural)]
pub enum RandomError {
    InvalidRange,
}

/// Relies on `rand::RngExt::random_range` over `rand::rng()`: for the
/// non-empty inclusive range `1..=n` it returns a value of that range
/// (it panics on an empty range, which `1 <= n` rules out). The value
/// drawn depends on a process-wide generator, so nothing more than the
/// bounds is stated.
#[verifier::external_body]
fn sample_one_to(n: i32) -> (r: i32)
    requires
        1 <= n,
    ensures
        1 <= r <= n,
{
    let mut rng = rand::rng();
    rand::RngExt::random_range(&mut rng, 1..=n)
}

/// Draws an integer from the inclusive range `[1, n]`.
///
/// Repeated calls consume entropy from a process-wide generator and need
/// not agree; every returned value lies in the range.
pub fn random_integer(n: i32) -> (r: i32)
    requires
        1 <= n,
    ensures
        1 <= r <= n,
{
    sample_one_to(n)
}

/// Draws an integer from the inclusive range `[1, n]`, rejecting bounds
/// below one instead of ruling them out up front.
pub fn checked_random_integer(n: i32) -> (r: Result<i32, RandomError>)
    ensures
        1 <= n ==> (r matches Ok(v) && 1 <= v <= n),
        n < 1 ==> r == Err::<i32, RandomError>(RandomError::InvalidRange),
{
    if n < 1 {
        Err(RandomError::InvalidRange)
    } else {
        Ok(sample_one_to(n))
    }
}

} // verus!
