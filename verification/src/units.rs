//! Lengths as whole numbers on a fixed grid.

use vstd::prelude::*;

verus! {

/// The number of grid steps in one world unit of length: 720 * 2^23.
///
/// The factor 2^23 puts every single-precision number of magnitude one or more,
/// and every multiple of 2^-23 below one, on the grid. The factor 720 makes the
/// distance covered in a tick, and the speed lost to gravity in a tick, whole.
pub const ONE: i64 = 6_039_797_760;

/// `v` brought into the range of `i64`.
pub open spec fn clamp(v: int) -> int {
    if v < i64::MIN {
        i64::MIN as int
    } else if v > i64::MAX {
        i64::MAX as int
    } else {
        v
    }
}

/// The length of `n` world units.
pub open spec fn whole(n: int) -> int {
    n * ONE
}

/// The sum of two lengths, held at the nearest end of the range where it leaves it.
pub fn add_clamped(a: i64, b: i64) -> (r: i64)
    ensures
        r == clamp(a + b),
{
    match a.checked_add(b) {
        Some(sum) => sum,
        None => if b < 0 {
            i64::MIN
        } else {
            i64::MAX
        },
    }
}

/// The difference of two lengths, held at the nearest end of the range where it leaves it.
pub fn sub_clamped(a: i64, b: i64) -> (r: i64)
    ensures
        r == clamp(a - b),
{
    match a.checked_sub(b) {
        Some(difference) => difference,
        None => if b < 0 {
            i64::MAX
        } else {
            i64::MIN
        },
    }
}

/// The length of `n` world units.
pub fn from_whole(n: i16) -> (r: i64)
    ensures
        r == whole(n as int),
{
    n as i64 * ONE
}

/// Whether `v` lies at or above `low` world units and below `high` world units.
pub fn in_span(v: i64, low: i16, high: i16) -> (r: bool)
    ensures
        r == (whole(low as int) <= v < whole(high as int)),
{
    from_whole(low) <= v && v < from_whole(high)
}

} // verus!
