//! Core of a spectrogram pipeline: window-kind and frequency-scale selection,
//! transform-size validation, frame-shape checks, and triangular filter-bank
//! construction and pairing.
//!
//! Magnitudes, window coefficients and filter weights are carried as `u32`
//! IEEE-754 single-precision bit patterns; the floating-point kernels that
//! produce and consume them live outside the verified core.

pub mod analyzer;
pub mod errors;
pub mod filterbank;
pub mod kinds;
pub mod sizes;
pub mod window;
