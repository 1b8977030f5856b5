//! SIMD register width, in lanes per element type.
use vstd::prelude::*;

verus! {

/// Number of `f32` lanes in one SIMD register on the targets this library is
/// tuned for (AVX: 256 bits).
pub const MAX: usize = 8;

/// Lanes of an element of `size` bytes in one register: `MAX` for elements
/// no wider than an `f32`, proportionally fewer for wider ones, and never
/// less than one, so that a kernel degrades to scalar code.
pub open spec fn lanes_for_size(size: int) -> int {
    if size <= 4 {
        MAX as int
    } else if MAX as int / (size / 4) == 0 {
        1
    } else {
        MAX as int / (size / 4)
    }
}

/// Number of lanes of `T` that fit one SIMD register.
pub fn max_for_type<T>() -> (r: usize)
    ensures
        r == lanes_for_size(vstd::layout::size_of::<T>() as int),
        r >= 1,
{
    let size = core::mem::size_of::<T>();
    if size <= 4 {
        MAX
    } else {
        let q = MAX / (size / 4);
        if q == 0 {
            1
        } else {
            q
        }
    }
}

} // verus!
