use dng_sdk_rs::errors::{Error, ErrorKind};
use dng_sdk_rs::image::PixelType;
use dng_sdk_rs::matrix::Vector;
use dng_sdk_rs::pixel_buffer::PixelBuffer;
use dng_sdk_rs::rect::Rect;
use dng_sdk_rs::tag::values::{LightSource, Magic};
use dng_sdk_rs::types::dng_char4;
use dng_sdk_rs::types::rational::{Rational, URational};

#[test]
fn error_keeps_kind() {
    let e = Error::new(ErrorKind::InvalidTemperature);
    assert_eq!(e.kind(), ErrorKind::InvalidTemperature);
    assert_eq!(Error::new(ErrorKind::InvalidColorSpec(5)).kind(), ErrorKind::InvalidColorSpec(5));
}

#[test]
fn char4_is_big_endian() {
    assert_eq!(dng_char4([0x12, 0x34, 0x56, 0x78]), 0x1234_5678);
    assert_eq!(dng_char4(*b"DNG "), 0x444E_4720);
    assert_eq!(dng_char4([0xFF; 4]), u32::MAX);
}

#[test]
fn rational_keeps_parts() {
    let r: URational = Rational::new(3, std::num::NonZeroU32::new(4).unwrap());
    assert_eq!(r.numerator, 3);
    assert_eq!(r.denominator.get(), 4);
}

#[test]
fn vector_holds_components() {
    let v = Vector::new([1, 2, 3]);
    assert_eq!(v.data, [1, 2, 3]);
    assert_eq!(Vector::from([4, 5]).data, [4, 5]);
}

#[test]
fn light_source_codes() {
    assert_eq!(LightSource::StandardLightA.code(), 17);
    assert_eq!(LightSource::Other.code(), 255);
    assert_eq!(LightSource::from_code(21), Some(LightSource::D65));
    assert_eq!(LightSource::from_code(5), None);
    assert_eq!(Magic::ExtendedProfile.code(), 0x4352);
    assert_eq!(Magic::from_code(43), Some(Magic::BigTiff));
    assert_eq!(Magic::from_code(44), None);
}

#[test]
fn internal_pixel_addresses_sample() {
    let data: Vec<u8> = (0..64).collect();
    let buffer = PixelBuffer {
        area: Rect { top: 2, left: 1, bottom: 6, right: 5 },
        plane: 0,
        planes: 2,
        row_step: 8,
        col_step: 2,
        plane_step: 1,
        pixel_type: PixelType::Short,
        pixel_size: 2,
        data: &data,
        dirty: false,
    };
    // steps = 8 * 1 + 2 * 2 + 1 * 1 = 13, bytes 26 and 27
    assert_eq!(buffer.internal_pixel(3, 3, 1), &[26, 27]);
    assert_eq!(buffer.internal_pixel(2, 1, 0), &[0, 1]);
}
