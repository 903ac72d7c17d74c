//! Grid dimensions and the modular arithmetic that keeps every coordinate on
//! the grid.  Motion past an edge wraps to the opposite edge.

use vstd::prelude::*;

verus! {

/// Number of columns of the character grid.
pub const BUFFER_WIDTH: usize = 80;

/// Number of rows of the character grid.
pub const BUFFER_HEIGHT: usize = 25;

/// Column at which a debris still in play awards one point as it crosses.
pub const SCORE_COLUMN: usize = 18;

/// Addition modulo `LIMIT`: the result is always a valid index below `LIMIT`.
pub fn safe_add<const LIMIT: usize>(a: usize, b: usize) -> (r: usize)
    requires
        0 < LIMIT,
        a + b <= usize::MAX,
    ensures
        r as int == (a + b) % (LIMIT as int),
        r < LIMIT,
{
    (a + b) % LIMIT
}

/// Step an index one place forward, wrapping from `LIMIT - 1` back to 0.
pub fn add1<const LIMIT: usize>(value: usize) -> (r: usize)
    requires
        0 < LIMIT,
        value < usize::MAX,
    ensures
        r as int == (value + 1) % (LIMIT as int),
        r < LIMIT,
{
    safe_add::<LIMIT>(value, 1)
}

/// Step an index one place backward, wrapping from 0 up to `LIMIT - 1`.
pub fn sub1<const LIMIT: usize>(value: usize) -> (r: usize)
    requires
        0 < LIMIT,
        value + LIMIT <= usize::MAX,
    ensures
        r as int == (value + LIMIT - 1) % (LIMIT as int),
        r < LIMIT,
{
    safe_add::<LIMIT>(value, LIMIT - 1)
}

} // verus!
