use vstd::prelude::*;

verus! {

/// How a calibration illuminant is given: by its white point or by its spectrum.
#[derive(Debug, Clone, Copy, PartialEq, Eq, Structural)]
pub enum IlluminantType {
    WhiteXY,
    Spectrum,
}

} // verus!
