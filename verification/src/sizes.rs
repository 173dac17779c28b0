//! Transform-size validation: a spectrum analyzer accepts only sizes that are
//! powers of two and at least two.

use vstd::prelude::*;

verus! {

/// `n` is a power of two: 1, 2, 4, 8, ...
pub open spec fn is_pow2(n: int) -> bool
    decreases n,
{
    if n <= 0 {
        false
    } else if n == 1 {
        true
    } else {
        n % 2 == 0 && is_pow2(n / 2)
    }
}

/// A transform size is valid when it is a power of two and at least two
/// (size one would make the window formulas divide by zero).
pub open spec fn valid_size(size: int) -> bool {
    size >= 2 && is_pow2(size)
}

/// Decides `valid_size` by repeated halving.
pub fn size_is_valid(size: usize) -> (b: bool)
    ensures
        b == valid_size(size as int),
{
    if size < 2 {
        return false;
    }
    let mut m: usize = size;
    while m > 1 && m % 2 == 0
        invariant
            1 <= m <= size,
            is_pow2(size as int) == is_pow2(m as int),
        decreases m,
    {
        m = m / 2;
    }
    m == 1
}

} // verus!
