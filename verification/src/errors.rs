//! Error taxonomy of the core: every failure is a recoverable value.

use vstd::prelude::*;

verus! {

/// What went wrong with a call into the core.
///
/// `InvalidParameter` covers an unknown window or scale name and a transform
/// size that is not a power of two (or is below two); `ShapeMismatch` covers a
/// buffer whose length does not match the configured size.
#[derive(Clone, Copy, Debug, PartialEq, Eq, Structural)]
pub enum SpectroError {
    InvalidParameter,
    ShapeMismatch,
}

} // verus!
