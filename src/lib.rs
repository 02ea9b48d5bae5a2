// Colour calibration for camera raw images: the decisions of the colour-spec engine
// (interpolation mode, which stored matrix each output comes from, the isotherm scan and
// the neutral search's stopping rule), with the integer geometry, tags and pixel
// addressing around them.

pub mod color_spec;
pub mod errors;
pub mod illuminant;
pub mod image;
pub mod info;
pub mod limits;
pub mod matrix;
pub mod negative;
pub mod orientation;
pub mod pixel_buffer;
pub mod point;
pub mod rect;
pub mod tag;
pub mod temperature;
pub mod types;

pub use types::Result;
