use crate::rect::Rect;
use vstd::prelude::*;

verus! {

/// How requests for pixels outside an image's bounds are answered.
#[derive(Debug, Clone, Copy, PartialEq, Eq, Structural)]
pub enum EdgeOption {
    /// Leave edge pixels unchanged
    EdgeNone,
    /// Pad with zeroes
    Zero,
    /// Repeat edge pixels
    Repeat,
    /// Repeat edge pixels, except for last plane which is zero padded.
    EdgeRepeatZeroLast,
    /// Wrap edge pixels horizontally, repeat edge pixels vertically.
    EdgeWrapHorizontal,
    /// Wrap edge pixels vertically, repeat edge pixels horizontally.
    EdgeWrapVertical,
    /// Wrap edge pixels in all directions (horizontal, vertical, diagonal).
    EdgeWrapAll,
}

/// The basic type of a pixel sample.
#[derive(Debug, Clone, Copy, PartialEq, Eq, Structural)]
pub enum PixelType {
    Byte,
    Short,
    SShort,
    Long,
    Float,
}

/// The description of an image: its bounds, planes and sample type.
pub struct Image {
    /// The bounds for this image
    bounds: Rect<i32>,
    /// The number of image planes.
    planes: u32,
    /// Basic Pixel type (TIFF tag type code)
    pixel_type: PixelType,
    /// How to handle requests to get image areas outside the image bounds.
    edge_option: EdgeOption,
}

/// Operations that change an image's geometry.
pub trait ImageTrait<SubPixel> {
    /// Shrink the bounds of the image to the given rectangle
    fn trim<T>(&mut self, bounds: Rect<T>) -> &mut Self;

    fn roatate(&mut self) -> &mut Self;
}

} // verus!
