//! Named window families and perceptual frequency scales, selected by name.
//!
//! Both selections are closed sets dispatched by string matching at the API
//! boundary; inside the core they are tagged enumerations.

use vstd::prelude::*;
use vstd::string::StrSliceExecFns;

use crate::errors::SpectroError;

verus! {

/// Character-for-character equality of two string slices.
pub fn str_eq(a: &str, b: &str) -> (r: bool)
    ensures
        r == (a@ == b@),
{
    let alen = a.unicode_len();
    let blen = b.unicode_len();
    if alen != blen {
        return false;
    }
    let mut i: usize = 0;
    while i < alen
        invariant
            alen == a@.len(),
            blen == b@.len(),
            alen == blen,
            i <= alen,
            forall|k: int| 0 <= k < i ==> a@[k] == b@[k],
        decreases alen - i,
    {
        if a.get_char(i) != b.get_char(i) {
            return false;
        }
        i += 1;
    }
    proof {
        assert(a@ =~= b@);
    }
    true
}

/// The supported window families.
#[derive(Clone, Copy, Debug, PartialEq, Eq, Structural)]
pub enum WindowKind {
    Bartlett,
    BartlettHann,
    Blackman,
    Cosine,
    Gauss,
    Hamming,
    Hann,
    Lanczos,
    Rectangular,
    Triangular,
}

/// Which window family a name selects; the empty string selects Hann,
/// an unknown name selects none.
pub open spec fn window_kind_of(name: Seq<char>) -> Option<WindowKind> {
    if name == "bartlett"@ {
        Some(WindowKind::Bartlett)
    } else if name == "bartlettHann"@ {
        Some(WindowKind::BartlettHann)
    } else if name == "blackman"@ {
        Some(WindowKind::Blackman)
    } else if name == "cosine"@ {
        Some(WindowKind::Cosine)
    } else if name == "gauss"@ {
        Some(WindowKind::Gauss)
    } else if name == "hamming"@ {
        Some(WindowKind::Hamming)
    } else if name == "hann"@ || name == ""@ {
        Some(WindowKind::Hann)
    } else if name == "lanczos"@ {
        Some(WindowKind::Lanczos)
    } else if name == "rectangular"@ {
        Some(WindowKind::Rectangular)
    } else if name == "triangular"@ {
        Some(WindowKind::Triangular)
    } else {
        None
    }
}

impl WindowKind {
    /// Looks a window family up by name: exactly the names of
    /// `window_kind_of` are accepted, anything else is an invalid parameter.
    pub fn parse(name: &str) -> (r: Result<WindowKind, SpectroError>)
        ensures
            r is Ok <==> window_kind_of(name@) is Some,
            r matches Ok(k) ==> window_kind_of(name@) == Some(k),
            r matches Err(e) ==> e == SpectroError::InvalidParameter,
    {
        if str_eq(name, "bartlett") {
            Ok(WindowKind::Bartlett)
        } else if str_eq(name, "bartlettHann") {
            Ok(WindowKind::BartlettHann)
        } else if str_eq(name, "blackman") {
            Ok(WindowKind::Blackman)
        } else if str_eq(name, "cosine") {
            Ok(WindowKind::Cosine)
        } else if str_eq(name, "gauss") {
            Ok(WindowKind::Gauss)
        } else if str_eq(name, "hamming") {
            Ok(WindowKind::Hamming)
        } else if str_eq(name, "hann") || str_eq(name, "") {
            Ok(WindowKind::Hann)
        } else if str_eq(name, "lanczos") {
            Ok(WindowKind::Lanczos)
        } else if str_eq(name, "rectangular") {
            Ok(WindowKind::Rectangular)
        } else if str_eq(name, "triangular") {
            Ok(WindowKind::Triangular)
        } else {
            Err(SpectroError::InvalidParameter)
        }
    }
}

/// The supported perceptual frequency scales. `Linear` is the identity scale:
/// it builds no filters at all.
#[derive(Clone, Copy, Debug, PartialEq, Eq, Structural)]
pub enum ScaleKind {
    Mel,
    Logarithmic,
    Bark,
    Erb,
    Linear,
}

/// Which frequency scale a name selects; an unknown name selects none.
pub open spec fn scale_kind_of(name: Seq<char>) -> Option<ScaleKind> {
    if name == "mel"@ {
        Some(ScaleKind::Mel)
    } else if name == "logarithmic"@ {
        Some(ScaleKind::Logarithmic)
    } else if name == "bark"@ {
        Some(ScaleKind::Bark)
    } else if name == "erb"@ {
        Some(ScaleKind::Erb)
    } else if name == "linear"@ {
        Some(ScaleKind::Linear)
    } else {
        None
    }
}

impl ScaleKind {
    /// Looks a frequency scale up by name: exactly the names of
    /// `scale_kind_of` are accepted, anything else is an invalid parameter.
    pub fn parse(name: &str) -> (r: Result<ScaleKind, SpectroError>)
        ensures
            r is Ok <==> scale_kind_of(name@) is Some,
            r matches Ok(k) ==> scale_kind_of(name@) == Some(k),
            r matches Err(e) ==> e == SpectroError::InvalidParameter,
    {
        if str_eq(name, "mel") {
            Ok(ScaleKind::Mel)
        } else if str_eq(name, "logarithmic") {
            Ok(ScaleKind::Logarithmic)
        } else if str_eq(name, "bark") {
            Ok(ScaleKind::Bark)
        } else if str_eq(name, "erb") {
            Ok(ScaleKind::Erb)
        } else if str_eq(name, "linear") {
            Ok(ScaleKind::Linear)
        } else {
            Err(SpectroError::InvalidParameter)
        }
    }
}

} // verus!
