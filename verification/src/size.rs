use vstd::prelude::*;

verus! {

/// The fixed multiplicative factor that maps raw document units to physical
/// pixels. One policy is chosen explicitly: every raw dimension is doubled.
pub const SCALE_FACTOR: u64 = 2;

/// A physical-pixel size: an ordered pair of non-negative dimensions.
///
/// The integral physical-pixel representation is used consistently from the
/// producer callback to the polling consumer.
#[derive(Clone, Copy, PartialEq, Eq, Structural, Debug)]
pub struct Size {
    pub width: u64,
    pub height: u64,
}

/// What one raw dimension becomes under the scaling policy.
pub open spec fn scaled(dimension: int) -> int {
    dimension * (SCALE_FACTOR as int)
}

/// Maps a raw dimension pair reported by the document to the physical-pixel
/// pair the rendering surface expects, by the fixed scaling policy.
///
/// Pure: the result is determined by the arguments alone, and the call never
/// fails.
pub fn scale(width: u32, height: u32) -> (s: Size)
    ensures
        s.width == scaled(width as int),
        s.height == scaled(height as int),
{
    Size { width: (width as u64) * SCALE_FACTOR, height: (height as u64) * SCALE_FACTOR }
}

/// Scaling is monotonic in each dimension independently: a report that is no
/// wider (or no taller) than another scales to a size that is no wider (or no
/// taller).
pub proof fn lemma_scale_monotonic(d1: int, d2: int)
    requires
        0 <= d1 <= d2,
    ensures
        scaled(d1) <= scaled(d2),
{
}

} // verus!
