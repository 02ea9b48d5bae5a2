use vstd::prelude::*;

verus! {

/// A point given by its vertical and horizontal coordinates.
#[derive(Debug, Clone, Copy, PartialEq, Eq, Structural)]
pub struct Point<T> {
    pub v: T,
    pub h: T,
}

impl<T> Point<T> {
    pub fn new(v: T, h: T) -> (r: Self)
        ensures
            r.v == v,
            r.h == h,
    {
        Self { v, h }
    }
}

impl Point<i32> {
    /// The squared Euclidean distance between two points, exact for every pair.
    pub fn distance_squared(&self, other: &Self) -> (r: u128)
        ensures
            r as int == (self.v - other.v) * (self.v - other.v) + (self.h - other.h) * (self.h
                - other.h),
    {
        let dv: i64 = self.v as i64 - other.v as i64;
        let dh: i64 = self.h as i64 - other.h as i64;
        let av: u128 = if dv < 0 {
            (-dv) as u128
        } else {
            dv as u128
        };
        let ah: u128 = if dh < 0 {
            (-dh) as u128
        } else {
            dh as u128
        };
        assert(av * av <= 0x1_0000_0000 * 0x1_0000_0000) by (nonlinear_arith)
            requires
                av <= 0x1_0000_0000,
        ;
        assert(ah * ah <= 0x1_0000_0000 * 0x1_0000_0000) by (nonlinear_arith)
            requires
                ah <= 0x1_0000_0000,
        ;
        assert((av * av) as int == dv * dv) by (nonlinear_arith)
            requires
                av as int == dv || av as int == -dv,
        ;
        assert((ah * ah) as int == dh * dh) by (nonlinear_arith)
            requires
                ah as int == dh || ah as int == -dh,
        ;
        av * av + ah * ah
    }
}

impl core::ops::Sub for Point<i32> {
    type Output = Self;

    fn sub(self, other: Self) -> (r: Self) {
        Self { v: self.v - other.v, h: self.h - other.h }
    }
}

impl vstd::std_specs::ops::SubSpecImpl for Point<i32> {
    open spec fn obeys_sub_spec() -> bool {
        true
    }

    open spec fn sub_req(self, other: Self) -> bool {
        i32::MIN <= self.v - other.v <= i32::MAX && i32::MIN <= self.h - other.h <= i32::MAX
    }

    open spec fn sub_spec(self, other: Self) -> Self {
        Point { v: (self.v - other.v) as i32, h: (self.h - other.h) as i32 }
    }
}

} // verus!
