use vstd::prelude::*;

verus! {

/// A fraction kept as its numerator and its denominator, unreduced.
#[derive(Debug, Clone, PartialEq, Eq)]
pub struct Rational<T, NZ> {
    pub numerator: T,
    pub denominator: NZ,
}

/// A signed fraction with a non-zero denominator.
pub type SRational = Rational<i32, core::num::NonZeroI32>;

/// An unsigned fraction with a non-zero denominator.
pub type URational = Rational<u32, core::num::NonZeroU32>;

impl<T, NZ> Rational<T, NZ> {
    pub fn new(numerator: T, denominator: NZ) -> (r: Self)
        ensures
            r.numerator == numerator,
            r.denominator == denominator,
    {
        Self { numerator, denominator }
    }
}

} // verus!
