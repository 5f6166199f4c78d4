use vstd::prelude::*;

verus! {

/// Relies on rand::random: draws a value from the thread-local generator.
/// Nothing can be promised of a random draw, so no clause is stated; the
/// callers say what holds of every outcome.
pub assume_specification<T>[ rand::random::<T> ]() -> (r: T)
    where
        rand::distributions::Standard: rand::distributions::Distribution<T>,
;

/// A pseudo-random hue in thousandths of a degree, uniform over the color
/// circle. Used only by the debug-visualization path, which paints each
/// redrawn cell in a random color.
pub fn random_hue_milli() -> (r: u32)
    ensures
        r < 360000,
{
    let raw: u32 = rand::random::<u32>();
    raw % 360000
}

} // verus!
