//! The shape of the spectrum pipeline: how many samples one frame reads and
//! which bins it plots.
use vstd::prelude::*;

verus! {

/// Samples per transform window, and bins in the smoothed spectrum.
pub const SPECTRUM_SIZE: usize = 8192;

/// The bins worth plotting: the lower half, in order. The upper half of a
/// real signal's spectrum mirrors it.
pub fn lower_half<T: Copy>(bins: &Vec<T>) -> (r: Vec<T>)
    ensures
        r@ == bins@.subrange(0, (bins@.len() / 2) as int),
        r@.len() == bins@.len() / 2,
{
    let half: usize = bins.len() / 2;
    let mut r: Vec<T> = Vec::with_capacity(half);
    let mut i: usize = 0;
    while i < half
        invariant
            half == bins@.len() / 2,
            i <= half,
            r@ == bins@.subrange(0, i as int),
        decreases half - i,
    {
        r.push(bins[i]);
        i = i + 1;
        assert(r@ =~= bins@.subrange(0, i as int));
    }
    r
}

} // verus!
