//! Indices that stay within their table.

use vstd::prelude::*;

verus! {

/// The sum of `value` and `rhs` where it lies within `min..=max`, and nothing where
/// it does not.
pub open spec fn checked_add_spec(value: usize, rhs: usize, min: usize, max: usize) -> Option<
    usize,
> {
    if min <= value + rhs <= max {
        Some((value + rhs) as usize)
    } else {
        None
    }
}

/// Adds `rhs` to `value`, unless the sum would leave `min..=max`.
#[verifier::when_used_as_spec(checked_add_spec)]
pub fn checked_add(value: usize, rhs: usize, min: usize, max: usize) -> (sum: Option<usize>)
    ensures
        sum == checked_add_spec(value, rhs, min, max),
{
    match value.checked_add(rhs) {
        Some(sum) => if min <= sum && sum <= max {
            Some(sum)
        } else {
            None
        },
        None => None,
    }
}

} // verus!
