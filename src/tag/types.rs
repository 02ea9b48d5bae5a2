use vstd::prelude::*;

verus! {

/// A half-precision floating-point tag value, kept as its 16 raw bits.
#[derive(Debug, Clone, Copy, PartialEq, Eq, Structural)]
pub struct HalfBits(pub u16);

} // verus!
