//! Configuration and shape policy of the spectrum analyzer.
//!
//! The analyzer's numeric work — windowing the frame, the forward transform,
//! magnitude extraction — runs on floating-point buffers owned by the host;
//! this module owns every decision around it: which sizes and window names
//! are accepted, which frames are analyzed, and how long the spectrum is.

use vstd::prelude::*;

use crate::errors::SpectroError;
use crate::kinds::{window_kind_of, WindowKind};
use crate::sizes::{size_is_valid, valid_size};

verus! {

/// The validated configuration of one spectrum analyzer: its transform size
/// and its window family.
#[derive(Clone, Copy, Debug, PartialEq, Eq, Structural)]
pub struct SpectrumAnalyzer {
    pub size: usize,
    pub kind: WindowKind,
}

impl SpectrumAnalyzer {
    /// The configuration is well formed: the size is a power of two, two or
    /// more.
    pub open spec fn wf(&self) -> bool {
        valid_size(self.size as int)
    }

    /// Validates a transform size and a window name. Succeeds exactly when
    /// the size is a power of two at least two and the name is a known
    /// window family (the empty name selecting Hann); any other input is an
    /// invalid parameter.
    pub fn new(size: usize, window_name: &str) -> (r: Result<SpectrumAnalyzer, SpectroError>)
        ensures
            r is Ok <==> valid_size(size as int) && window_kind_of(window_name@) is Some,
            r matches Ok(a) ==> a.size == size && window_kind_of(window_name@) == Some(a.kind)
                && a.wf(),
            r matches Err(e) ==> e == SpectroError::InvalidParameter,
    {
        if !size_is_valid(size) {
            return Err(SpectroError::InvalidParameter);
        }
        let kind = match WindowKind::parse(window_name) {
            Ok(k) => k,
            Err(e) => {
                return Err(e);
            },
        };
        Ok(SpectrumAnalyzer { size, kind })
    }

    /// The configured transform size.
    pub fn size(&self) -> (r: usize)
        ensures
            r == self.size,
    {
        self.size
    }

    /// The length of every spectrum this analyzer produces: half the
    /// transform size (the upper half of the transform is redundant for real
    /// input and is discarded). A well-formed size is even, so the size is
    /// exactly twice the spectrum length.
    pub fn spectrum_len(&self) -> (r: usize)
        ensures
            r == self.size / 2,
            self.wf() ==> 2 * r == self.size,
    {
        self.size / 2
    }

    /// Admits a frame for analysis exactly when its length matches the
    /// configured transform size; anything else is a shape mismatch.
    pub fn check_frame(&self, frame_len: usize) -> (r: Result<(), SpectroError>)
        ensures
            r is Ok <==> frame_len == self.size,
            r matches Err(e) ==> e == SpectroError::ShapeMismatch,
    {
        if frame_len == self.size {
            Ok(())
        } else {
            Err(SpectroError::ShapeMismatch)
        }
    }
}

} // verus!
