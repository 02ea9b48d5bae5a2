use crate::image::PixelType;
use crate::rect::Rect;
use vstd::prelude::*;

verus! {

/// A view of pixel data laid out by row, column and plane steps.
pub struct PixelBuffer<'pb> {
    /// The area this buffer holds
    pub area: Rect<i32>,
    /// The first plane this buffer holds
    pub plane: u32,
    /// The number of planes this buffer holds
    pub planes: u32,
    /// Steps between pixels
    pub row_step: u64,
    pub col_step: u64,
    /// Steps between planes
    pub plane_step: u64,
    /// The pixel type (TIFF tag type code)
    pub pixel_type: PixelType,
    /// The size of the pixel type in bytes
    pub pixel_size: u32,
    /// The pixel data
    pub data: &'pb [u8],
    /// Do we have write access to this data ?
    pub dirty: bool,
}

impl<'pb> PixelBuffer<'pb> {
    /// The number of steps from the buffer's origin to a pixel.
    pub open spec fn step_count(&self, row: u64, col: u64, plane: u64) -> int {
        self.row_step * (row - (#[verifier::truncate] (self.area.top as u64))) + self.col_step * (col - (#[verifier::truncate] (self.area.left as u64))) + self.plane_step * (plane - (self.plane as u64))
    }

    /// The byte offset of a pixel in `data`.
    pub open spec fn byte_offset(&self, row: u64, col: u64, plane: u64) -> int {
        self.pixel_size * self.step_count(row, col, plane)
    }

    /// The bytes of the sample at `row`, `col` and `plane`.
    pub fn internal_pixel(&self, row: u64, col: u64, plane: u64) -> (r: &'pb [u8])
        requires
            row >= #[verifier::truncate] (self.area.top as u64),
            col >= #[verifier::truncate] (self.area.left as u64),
            plane >= self.plane as u64,
            self.step_count(row, col, plane) <= u64::MAX,
            self.byte_offset(row, col, plane) + self.pixel_size <= self.data@.len(),
        ensures
            r@ == self.data@.subrange(
                self.byte_offset(row, col, plane),
                self.byte_offset(row, col, plane) + self.pixel_size,
            ),
    {
        let dr = row - #[verifier::truncate] (self.area.top as u64);
        let dc = col - #[verifier::truncate] (self.area.left as u64);
        let dp = plane - self.plane as u64;
        proof {
            assert(0 <= self.row_step * dr) by (nonlinear_arith);
            assert(0 <= self.col_step * dc) by (nonlinear_arith);
            assert(0 <= self.plane_step * dp) by (nonlinear_arith);
        }
        let steps = self.row_step * dr + self.col_step * dc + self.plane_step * dp;
        assert(steps == self.step_count(row, col, plane));
        assert(self.pixel_size * steps == self.byte_offset(row, col, plane));
        assert(0 <= self.pixel_size * steps) by (nonlinear_arith);
        let len = self.data.len();
        assert(len <= u64::MAX);
        let offset = (self.pixel_size as u64 * steps) as usize;
        &self.data[offset..offset + self.pixel_size as usize]
    }
}

} // verus!
