//! The seeded random draws behind debris spawning.  A spawn takes three
//! bounded draws from a generator built from the spawn seed, so the triple is
//! a fixed function of the seed and the bounds: the same seed always yields
//! the same debris.

use vstd::prelude::*;

verus! {

/// The triple of bounded draws (row, speed, color index) that a generator
/// seeded with `seed` yields for the given bounds.  Each component lies in
/// the corresponding half-open range; nothing else is assumed of the values.
pub uninterp spec fn rolls_of(
    seed: u32,
    row_lo: u32,
    row_hi: u32,
    speed_lo: u32,
    speed_hi: u32,
    colors: u32,
) -> (u32, u32, u32);

/// Relies on `oorandom::Rand32::new` and `Rand32::rand_range`: a generator
/// built from `seed` yields a fixed sequence of draws, and each
/// `rand_range(a..b)` draw lies in `[a, b)` (the range must be non-empty).
/// Three draws are taken in a fixed order, so the triple is a function of the
/// arguments alone.
#[verifier::external_body]
pub(crate) fn seeded_rolls(
    seed: u32,
    row_lo: u32,
    row_hi: u32,
    speed_lo: u32,
    speed_hi: u32,
    colors: u32,
) -> (r: (u32, u32, u32))
    requires
        row_lo < row_hi,
        speed_lo < speed_hi,
        0 < colors,
    ensures
        r == rolls_of(seed, row_lo, row_hi, speed_lo, speed_hi, colors),
        row_lo <= r.0 < row_hi,
        speed_lo <= r.1 < speed_hi,
        r.2 < colors,
{
    let mut rng = oorandom::Rand32::new(u64::from(seed));
    let row = rng.rand_range(row_lo..row_hi);
    let speed = rng.rand_range(speed_lo..speed_hi);
    let color = rng.rand_range(0..colors);
    (row, speed, color)
}

} // verus!
