//! Triangular filter banks over transform bins.
//!
//! A filter bank reduces a half-length magnitude spectrum to one aggregate
//! value per perceptual band. Each filter row spans `fft_size / 2 + 1` bins
//! and is zero everywhere except, possibly, at two adjacent bins straddling
//! the band's center: the bin the center falls into carries `1 - r`, the next
//! bin carries `r`, where `r` is the fractional bin position of the center.
//! Those two weights are floating-point values computed by the host's
//! frequency-scale kernels; the core receives them as bit patterns together
//! with the integer bin index, and owns the placement, the shapes, and the
//! pairing that the dot products run over.

use vstd::prelude::*;
use vstd::pervasive::VecAdditionalExecFns;

use crate::errors::SpectroError;
use crate::window::F32_ZERO_BITS;

verus! {

/// Where one triangular filter touches the spectrum: the bin its center
/// frequency falls into, and the two interpolation weights (single-precision
/// bit patterns) for that bin and the next.
#[derive(Clone, Copy, Debug, PartialEq, Eq, Structural)]
pub struct TriangleCenter {
    pub bin: usize,
    pub low: u32,
    pub high: u32,
}

/// The row a center produces over `half + 1` bins: `low` at `bin`, `high` at
/// `bin + 1`, zero elsewhere. A center whose bin lies at or beyond `half`
/// produces an all-zero row (a silently dropped band, not an error).
pub open spec fn triangle_row(c: TriangleCenter, half: int) -> Seq<u32> {
    Seq::new(
        (half + 1) as nat,
        |k: int|
            if c.bin < half && k == c.bin {
                c.low
            } else if c.bin < half && k == c.bin + 1 {
                c.high
            } else {
                F32_ZERO_BITS
            },
    )
}

/// Every filter row spans `half + 1` bins and is zero away from its
/// center's bin and the bin after it: a row holds at most two non-zero
/// weights, and they are adjacent.
pub proof fn lemma_triangle_row_sparse(c: TriangleCenter, half: int)
    requires
        half >= 0,
    ensures
        triangle_row(c, half).len() == half + 1,
        forall|k: int|
            0 <= k <= half && k != c.bin && k != c.bin + 1 ==> #[trigger] triangle_row(c, half)[k]
                == F32_ZERO_BITS,
{
}

/// A built filter bank: `filters` holds one row per band, each of length
/// `fft_size / 2 + 1`. For the linear scale `filters` is empty while
/// `num_filters` keeps the requested band count.
pub struct FilterBank {
    pub filters: Vec<Vec<u32>>,
    pub num_filters: usize,
    pub fft_size: usize,
}

/// The element-wise pairing of one filter row with a spectrum, up to the
/// shorter of the two: what the row's dot product multiplies.
pub open spec fn row_pairs(row: Seq<u32>, spectrum: Seq<u32>) -> Seq<(u32, u32)> {
    Seq::new(
        if row.len() <= spectrum.len() {
            row.len()
        } else {
            spectrum.len()
        },
        |k: int| (row[k], spectrum[k]),
    )
}

impl FilterBank {
    /// The filter bank of the linear scale: no filters at all, whatever band
    /// count was requested. Distinguishable from "zero bands requested" by
    /// `num_filters`.
    pub fn linear(num_filters: usize, fft_size: usize) -> (r: FilterBank)
        ensures
            r.filters@.len() == 0,
            r.num_filters == num_filters,
            r.fft_size == fft_size,
    {
        FilterBank { filters: Vec::new(), num_filters, fft_size }
    }

    /// Builds one triangular row per center: row `i` is exactly
    /// `triangle_row(centers[i], fft_size / 2)`.
    pub fn from_centers(fft_size: usize, centers: &Vec<TriangleCenter>) -> (r: FilterBank)
        ensures
            r.fft_size == fft_size,
            r.num_filters == centers@.len(),
            r.filters@.len() == centers@.len(),
            forall|i: int|
                0 <= i < centers@.len() ==> (#[trigger] r.filters@[i]@) == triangle_row(
                    centers@[i],
                    fft_size as int / 2,
                ),
    {
        let half = fft_size / 2;
        let mut filters: Vec<Vec<u32>> = Vec::new();
        let mut i: usize = 0;
        while i < centers.len()
            invariant
                i <= centers@.len(),
                half == fft_size as int / 2,
                filters@.len() == i,
                forall|t: int|
                    0 <= t < i ==> filters@[t]@ == triangle_row(centers@[t], half as int),
            decreases centers@.len() - i,
        {
            let c = centers[i];
            let mut row: Vec<u32> = Vec::new();
            let mut k: usize = 0;
            while k < half + 1
                invariant
                    half + 1 <= usize::MAX,
                    k <= half + 1,
                    row@.len() == k,
                    forall|t: int| 0 <= t < k ==> row@[t] == F32_ZERO_BITS,
                decreases half + 1 - k,
            {
                row.push(F32_ZERO_BITS);
                k += 1;
            }
            if c.bin < half {
                row.set(c.bin, c.low);
                row.set(c.bin + 1, c.high);
            }
            proof {
                assert(row@ =~= triangle_row(centers@[i as int], half as int));
            }
            filters.push(row);
            i += 1;
        }
        FilterBank { filters, num_filters: centers.len(), fft_size }
    }

    /// How many bands this bank reduces a spectrum to.
    pub fn num_filters(&self) -> (r: usize)
        ensures
            r == self.num_filters,
    {
        self.num_filters
    }

    /// The pairings that applying this bank multiplies and sums: one list of
    /// (weight, magnitude) pairs per requested band, in band order. Row `i`
    /// is paired element-wise with the spectrum up to the shorter length —
    /// so each row's final extra bin never meets a magnitude — and bands
    /// beyond the built rows (every band, for the linear scale) pair with
    /// nothing and aggregate to zero. Fails, and pairs nothing, on a
    /// spectrum whose length is not `fft_size / 2`.
    pub fn gather(&self, spectrum: &Vec<u32>) -> (r: Result<
        Vec<Vec<(u32, u32)>>,
        SpectroError,
    >)
        ensures
            r is Ok <==> spectrum@.len() == self.fft_size / 2,
            r matches Err(e) ==> e == SpectroError::ShapeMismatch,
            r matches Ok(rows) ==> rows@.len() == self.num_filters,
            r matches Ok(rows) ==> forall|i: int|
                0 <= i < rows@.len() ==> (#[trigger] rows@[i]@) == (if i < self.filters@.len() {
                    row_pairs(self.filters@[i]@, spectrum@)
                } else {
                    Seq::<(u32, u32)>::empty()
                }),
    {
        if spectrum.len() != self.fft_size / 2 {
            return Err(SpectroError::ShapeMismatch);
        }
        let mut rows: Vec<Vec<(u32, u32)>> = Vec::new();
        let mut i: usize = 0;
        while i < self.num_filters
            invariant
                i <= self.num_filters,
                rows@.len() == i,
                forall|t: int|
                    0 <= t < i ==> rows@[t]@ == (if t < self.filters@.len() {
                        row_pairs(self.filters@[t]@, spectrum@)
                    } else {
                        Seq::<(u32, u32)>::empty()
                    }),
            decreases self.num_filters - i,
        {
            let mut pairs: Vec<(u32, u32)> = Vec::new();
            if i < self.filters.len() {
                let row = &self.filters[i];
                let bound = if row.len() <= spectrum.len() {
                    row.len()
                } else {
                    spectrum.len()
                };
                let mut k: usize = 0;
                while k < bound
                    invariant
                        i < self.filters@.len(),
                        row@ == self.filters@[i as int]@,
                        bound == row_pairs(row@, spectrum@).len(),
                        bound <= row@.len(),
                        bound <= spectrum@.len(),
                        k <= bound,
                        pairs@.len() == k,
                        forall|t: int|
                            0 <= t < k ==> pairs@[t] == row_pairs(row@, spectrum@)[t],
                    decreases bound - k,
                {
                    pairs.push((row[k], spectrum[k]));
                    k += 1;
                }
                proof {
                    assert(pairs@ =~= row_pairs(self.filters@[i as int]@, spectrum@));
                }
            }
            rows.push(pairs);
            i += 1;
        }
        Ok(rows)
    }
}

} // verus!
