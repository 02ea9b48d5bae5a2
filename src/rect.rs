use crate::point::Point;
use vstd::prelude::*;

verus! {

/// The integer lies within the range of `i32`.
pub open spec fn fits_i32(x: int) -> bool {
    i32::MIN <= x <= i32::MAX
}

/// The difference `a - b`, if it fits in an `i32`.
pub open spec fn checked_diff(a: i32, b: i32) -> Option<i32> {
    if fits_i32(a - b) {
        Some((a - b) as i32)
    } else {
        None
    }
}

/// The sum `a + b`, if it fits in an `i32`.
pub open spec fn checked_sum(a: i32, b: i32) -> Option<i32> {
    if fits_i32(a + b) {
        Some((a + b) as i32)
    } else {
        None
    }
}

/// Relies on num's `CheckedSub` for `i32`: the difference, or `None` where it overflows.
#[verifier::external_body]
fn num_checked_sub(a: i32, b: i32) -> (r: Option<i32>)
    ensures
        r == checked_diff(a, b),
{
    num::traits::CheckedSub::checked_sub(&a, &b)
}

/// Relies on num's `CheckedAdd` for `i32`: the sum, or `None` where it overflows.
#[verifier::external_body]
fn num_checked_add(a: i32, b: i32) -> (r: Option<i32>)
    ensures
        r == checked_sum(a, b),
{
    num::traits::CheckedAdd::checked_add(&a, &b)
}

/// A value holds another one.
pub trait Contains<T> {
    spec fn spec_contains(&self, other: &T) -> bool;

    fn contains(&self, other: &T) -> (r: bool)
        ensures
            r == self.spec_contains(other),
    ;
}

/// A value has a width.
pub trait Width<T> {
    spec fn spec_width(&self) -> T;

    fn width(&self) -> (r: T)
        ensures
            r == self.spec_width(),
    ;
}

/// A value has a height.
pub trait Height<T> {
    spec fn spec_height(&self) -> T;

    fn height(&self) -> (r: T)
        ensures
            r == self.spec_height(),
    ;
}

/// A rectangle given by its edges; `bottom` and `right` lie just outside it.
#[derive(Debug, Clone, Copy, Default, PartialEq, Eq, PartialOrd, Ord, Hash)]
pub struct Rect<T> {
    pub top: T,
    pub left: T,
    pub bottom: T,
    pub right: T,
}

/// A rectangle of `i32` edges.
pub type IRect = Rect<i32>;

impl Contains<Rect<i32>> for Rect<i32> {
    open spec fn spec_contains(&self, other: &Rect<i32>) -> bool {
        self.top <= other.top && self.left <= other.left && self.bottom >= other.bottom
            && self.right >= other.right
    }

    fn contains(&self, other: &Rect<i32>) -> (r: bool) {
        self.top <= other.top && self.left <= other.left && self.bottom >= other.bottom
            && self.right >= other.right
    }
}

impl Contains<Point<i32>> for Rect<i32> {
    open spec fn spec_contains(&self, other: &Point<i32>) -> bool {
        self.top <= other.v && self.left <= other.h && self.bottom > other.v && self.right
            > other.h
    }

    fn contains(&self, other: &Point<i32>) -> (r: bool) {
        self.top <= other.v && self.left <= other.h && self.bottom > other.v && self.right
            > other.h
    }
}

impl Width<Option<i32>> for Rect<i32> {
    open spec fn spec_width(&self) -> Option<i32> {
        checked_diff(self.right, self.left)
    }

    fn width(&self) -> (r: Option<i32>) {
        num_checked_sub(self.right, self.left)
    }
}

impl Height<Option<i32>> for Rect<i32> {
    open spec fn spec_height(&self) -> Option<i32> {
        checked_diff(self.bottom, self.top)
    }

    fn height(&self) -> (r: Option<i32>) {
        num_checked_sub(self.bottom, self.top)
    }
}

impl core::ops::Add<Point<i32>> for Rect<i32> {
    type Output = Self;

    /// The rectangle moved down by `rhs.v` and right by `rhs.h`.
    fn add(self, rhs: Point<i32>) -> (r: Self) {
        Self {
            top: self.top + rhs.v,
            left: self.left + rhs.h,
            bottom: self.bottom + rhs.v,
            right: self.right + rhs.h,
        }
    }
}

impl vstd::std_specs::ops::AddSpecImpl<Point<i32>> for Rect<i32> {
    open spec fn obeys_add_spec() -> bool {
        true
    }

    open spec fn add_req(self, rhs: Point<i32>) -> bool {
        fits_i32(self.top + rhs.v) && fits_i32(self.left + rhs.h) && fits_i32(self.bottom + rhs.v)
            && fits_i32(self.right + rhs.h)
    }

    open spec fn add_spec(self, rhs: Point<i32>) -> Self {
        Rect {
            top: (self.top + rhs.v) as i32,
            left: (self.left + rhs.h) as i32,
            bottom: (self.bottom + rhs.v) as i32,
            right: (self.right + rhs.h) as i32,
        }
    }
}

impl core::ops::Sub<Point<i32>> for Rect<i32> {
    type Output = Self;

    /// The rectangle moved up by `rhs.v` and left by `rhs.h`.
    fn sub(self, rhs: Point<i32>) -> (r: Self) {
        Self {
            top: self.top - rhs.v,
            left: self.left - rhs.h,
            bottom: self.bottom - rhs.v,
            right: self.right - rhs.h,
        }
    }
}

impl vstd::std_specs::ops::SubSpecImpl<Point<i32>> for Rect<i32> {
    open spec fn obeys_sub_spec() -> bool {
        true
    }

    open spec fn sub_req(self, rhs: Point<i32>) -> bool {
        fits_i32(self.top - rhs.v) && fits_i32(self.left - rhs.h) && fits_i32(self.bottom - rhs.v)
            && fits_i32(self.right - rhs.h)
    }

    open spec fn sub_spec(self, rhs: Point<i32>) -> Self {
        Rect {
            top: (self.top - rhs.v) as i32,
            left: (self.left - rhs.h) as i32,
            bottom: (self.bottom - rhs.v) as i32,
            right: (self.right - rhs.h) as i32,
        }
    }
}

impl TryFrom<(u32, u32)> for Rect<i32> {
    type Error = core::num::TryFromIntError;

    /// The rectangle of this width and height at the origin.
    fn try_from(size: (u32, u32)) -> (r: Result<Self, Self::Error>) {
        let (width, height) = size;
        let bottom = match i32::try_from(height as u64) {
            Ok(b) => b,
            Err(e) => return Err(e),
        };
        let right = match i32::try_from(width as u64) {
            Ok(r) => r,
            Err(e) => return Err(e),
        };
        Ok(Self { top: 0, left: 0, bottom, right })
    }
}

impl vstd::std_specs::convert::TryFromSpecImpl<(u32, u32)> for Rect<i32> {
    open spec fn obeys_try_from_spec() -> bool {
        true
    }

    open spec fn try_from_spec(size: (u32, u32)) -> Result<Self, Self::Error> {
        if size.0 <= i32::MAX && size.1 <= i32::MAX {
            Ok(Rect { top: 0, left: 0, bottom: size.1 as i32, right: size.0 as i32 })
        } else {
            Err(arbitrary())
        }
    }
}

impl From<Point<i32>> for Rect<i32> {
    /// The rectangle from the origin to `point`.
    fn from(point: Point<i32>) -> (r: Self) {
        Self { top: 0, left: 0, bottom: point.v, right: point.h }
    }
}

impl vstd::std_specs::convert::FromSpecImpl<Point<i32>> for Rect<i32> {
    open spec fn obeys_from_spec() -> bool {
        true
    }

    open spec fn from_spec(point: Point<i32>) -> Self {
        Rect { top: 0, left: 0, bottom: point.v, right: point.h }
    }
}

impl<T: Copy> Rect<T> {
    pub fn top_left(&self) -> (r: Point<T>)
        ensures
            r == (Point { v: self.top, h: self.left }),
    {
        Point::new(self.top, self.left)
    }

    pub fn top_right(&self) -> (r: Point<T>)
        ensures
            r == (Point { v: self.top, h: self.right }),
    {
        Point::new(self.top, self.right)
    }

    pub fn bottom_left(&self) -> (r: Point<T>)
        ensures
            r == (Point { v: self.bottom, h: self.left }),
    {
        Point::new(self.bottom, self.left)
    }

    pub fn bottom_right(&self) -> (r: Point<T>)
        ensures
            r == (Point { v: self.bottom, h: self.right }),
    {
        Point::new(self.bottom, self.right)
    }

    /// The rectangle mirrored across its main diagonal.
    pub fn transpose(&self) -> (r: Self)
        ensures
            r == (Rect { top: self.left, left: self.top, bottom: self.right, right: self.bottom }),
    {
        Self { top: self.left, left: self.top, bottom: self.right, right: self.bottom }
    }
}

impl Rect<i32> {
    /// A rectangle with these edges, if its width and height fit in an `i32`.
    pub fn new(top: i32, left: i32, bottom: i32, right: i32) -> (r: Option<Self>)
        ensures
            r is Some <==> (checked_diff(bottom, top) is Some && checked_diff(right, left) is Some),
            r is Some ==> r == Some(Rect { top, left, bottom, right }),
    {
        num_checked_sub(bottom, top)?;
        num_checked_sub(right, left)?;
        Some(Self { top, left, bottom, right })
    }

    /// `right - left`, if it fits in an `i32`.
    pub fn width(&self) -> (r: Option<i32>)
        ensures
            r == checked_diff(self.right, self.left),
    {
        num_checked_sub(self.right, self.left)
    }

    /// `bottom - top`, if it fits in an `i32`.
    pub fn height(&self) -> (r: Option<i32>)
        ensures
            r == checked_diff(self.bottom, self.top),
    {
        num_checked_sub(self.bottom, self.top)
    }

    /// The width and the height, as a point, if both fit in an `i32`.
    pub fn size(&self) -> (r: Option<Point<i32>>)
        ensures
            r is Some <==> (checked_diff(self.right, self.left) is Some && checked_diff(
                self.bottom,
                self.top,
            ) is Some),
            r is Some ==> r == Some(
                Point {
                    v: checked_diff(self.right, self.left)->Some_0,
                    h: checked_diff(self.bottom, self.top)->Some_0,
                },
            ),
    {
        let width = self.width()?;
        let height = self.height()?;
        Some(Point::new(width, height))
    }

    /// The longer of width and height, if both fit in an `i32`.
    pub fn long_side(&self) -> (r: Option<i32>)
        ensures
            r is Some <==> (checked_diff(self.right, self.left) is Some && checked_diff(
                self.bottom,
                self.top,
            ) is Some),
            r is Some ==> r->Some_0 == vstd::math::max(
                checked_diff(self.right, self.left)->Some_0 as int,
                checked_diff(self.bottom, self.top)->Some_0 as int,
            ),
    {
        let width = self.width()?;
        let height = self.height()?;
        Some(
            if width >= height {
                width
            } else {
                height
            },
        )
    }

    /// The shorter of width and height, if both fit in an `i32`.
    pub fn short_side(&self) -> (r: Option<i32>)
        ensures
            r is Some <==> (checked_diff(self.right, self.left) is Some && checked_diff(
                self.bottom,
                self.top,
            ) is Some),
            r is Some ==> r->Some_0 == vstd::math::min(
                checked_diff(self.right, self.left)->Some_0 as int,
                checked_diff(self.bottom, self.top)->Some_0 as int,
            ),
    {
        let width = self.width()?;
        let height = self.height()?;
        Some(
            if width <= height {
                width
            } else {
                height
            },
        )
    }

    /// The rectangle shrunk by `padding` on every side, if no edge overflows.
    pub fn padded(&self, padding: i32) -> (r: Option<Self>)
        ensures
            r is Some <==> (checked_sum(self.top, padding) is Some && checked_sum(
                self.left,
                padding,
            ) is Some && checked_diff(self.bottom, padding) is Some && checked_diff(
                self.right,
                padding,
            ) is Some),
            r is Some ==> r == Some(
                Rect {
                    top: (self.top + padding) as i32,
                    left: (self.left + padding) as i32,
                    bottom: (self.bottom - padding) as i32,
                    right: (self.right - padding) as i32,
                },
            ),
    {
        let top = num_checked_add(self.top, padding)?;
        let left = num_checked_add(self.left, padding)?;
        let bottom = num_checked_sub(self.bottom, padding)?;
        let right = num_checked_sub(self.right, padding)?;
        Some(Self { top, left, bottom, right })
    }

    /// The rectangle from the same corner whose bottom lies half the width below `top` and
    /// whose right edge lies half the height right of `left` (halves rounded down).
    pub fn half_rect(&self) -> (r: Option<Self>)
        requires
            fits_i32(self.right - self.left) ==> fits_i32(self.top + (self.right - self.left) / 2),
            fits_i32(self.right - self.left) && fits_i32(self.bottom - self.top) ==> fits_i32(
                self.left + (self.bottom - self.top) / 2,
            ),
        ensures
            r is Some <==> (fits_i32(self.right - self.left) && fits_i32(self.bottom - self.top)),
            r is Some ==> r == Some(
                Rect {
                    top: self.top,
                    left: self.left,
                    bottom: (self.top + (self.right - self.left) / 2) as i32,
                    right: (self.left + (self.bottom - self.top) / 2) as i32,
                },
            ),
    {
        let width = self.width()?;
        let half_width = width >> 1;
        assert((width >> 1) as int == (width as int) / 2) by (bit_vector);
        let bottom = self.top + half_width;
        let height = self.height()?;
        let half_height = height >> 1;
        assert((height >> 1) as int == (height as int) / 2) by (bit_vector);
        let right = self.left + half_height;
        Some(Self { top: self.top, left: self.left, bottom, right })
    }

    /// The rectangle from the same corner whose bottom lies twice the width below `top` and
    /// whose right edge lies twice the height right of `left`.
    pub fn double_rect(&self) -> (r: Option<Self>)
        requires
            fits_i32(self.right - self.left) ==> fits_i32(2 * (self.right - self.left))
                && fits_i32(self.top + 2 * (self.right - self.left)),
            fits_i32(self.right - self.left) && fits_i32(self.bottom - self.top) ==> fits_i32(
                2 * (self.bottom - self.top),
            ) && fits_i32(self.left + 2 * (self.bottom - self.top)),
        ensures
            r is Some <==> (fits_i32(self.right - self.left) && fits_i32(self.bottom - self.top)),
            r is Some ==> r == Some(
                Rect {
                    top: self.top,
                    left: self.left,
                    bottom: (self.top + 2 * (self.right - self.left)) as i32,
                    right: (self.left + 2 * (self.bottom - self.top)) as i32,
                },
            ),
    {
        let width = self.width()?;
        assert(-0x4000_0000 <= width < 0x4000_0000 ==> (width << 1) as int == 2 * width) by (bit_vector);
        let bottom = self.top + (width << 1);
        let height = self.height()?;
        assert(-0x4000_0000 <= height < 0x4000_0000 ==> (height << 1) as int == 2 * height) by (bit_vector);
        let right = self.left + (height << 1);
        Some(Self { top: self.top, left: self.left, bottom, right })
    }
}

} // verus!
