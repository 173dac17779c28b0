//! Window coefficients, carried as IEEE-754 single-precision bit patterns.
//!
//! Only the rectangular family has coefficients the core can synthesize
//! exactly (every weight is one); the trigonometric families are produced by
//! the host's floating-point kernels outside the core.

use vstd::prelude::*;

verus! {

/// The bit pattern of the single-precision value one.
pub const F32_ONE_BITS: u32 = 0x3F80_0000;

/// The bit pattern of the single-precision value positive zero.
pub const F32_ZERO_BITS: u32 = 0;

/// The rectangular window of a given length: every coefficient is one.
pub fn rectangular_window(size: usize) -> (w: Vec<u32>)
    ensures
        w@.len() == size,
        forall|i: int| 0 <= i < size ==> w@[i] == F32_ONE_BITS,
{
    let mut w: Vec<u32> = Vec::new();
    let mut i: usize = 0;
    while i < size
        invariant
            i <= size,
            w@.len() == i,
            forall|k: int| 0 <= k < i ==> w@[k] == F32_ONE_BITS,
        decreases size - i,
    {
        w.push(F32_ONE_BITS);
        i += 1;
    }
    w
}

} // verus!
