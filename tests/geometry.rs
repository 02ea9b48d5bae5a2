use dng_sdk_rs::orientation::Orientation;
use dng_sdk_rs::point::Point;
use dng_sdk_rs::rect::{Contains, Height, IRect, Rect, Width};

#[test]
fn orientation_tiff_round_trip() {
    for tiff in 1..=9u32 {
        assert_eq!(Orientation::from_tiff(tiff).to_tiff(), tiff);
    }
    assert_eq!(Orientation::from_tiff(0), Orientation::Normal);
    assert_eq!(Orientation::from_tiff(42), Orientation::Normal);
    assert_eq!(Orientation::from_tiff(6), Orientation::Rotate90CW);
    assert_eq!(Orientation::Mirror90CCW.to_tiff(), 5);
}

#[test]
fn orientation_flags() {
    let o = Orientation::Rotate90CW;
    assert!(o.flip_d());
    assert!(!o.flip_h());
    assert!(o.flip_v());
    assert!(!o.is_mirrored());
    let m = Orientation::Mirror;
    assert!(!m.flip_d());
    assert!(m.flip_h());
    assert!(!m.flip_v());
    assert!(m.is_mirrored());
    let r = Orientation::Rotate180;
    assert!(!r.flip_d());
    assert!(r.flip_h());
    assert!(r.flip_v());
    assert!(!Orientation::Normal.flip_h());
    assert!(!Orientation::Normal.flip_v());
    assert!(!Orientation::Unknown.is_mirrored());
    assert_eq!(Orientation::Unknown.code(), 8);
}

#[test]
fn point_distance_squared() {
    let a = Point::new(0, 0);
    let b = Point::new(3, -4);
    assert_eq!(a.distance_squared(&b), 25);
    let lo = Point::new(i32::MIN, i32::MIN);
    let hi = Point::new(i32::MAX, i32::MAX);
    let d = (u32::MAX as u128) * (u32::MAX as u128);
    assert_eq!(lo.distance_squared(&hi), 2 * d);
}

#[test]
fn rect_new_and_sides() {
    assert_eq!(IRect::new(i32::MIN, 0, i32::MAX, 1), None);
    let r = IRect::new(10, 20, 40, 100).unwrap();
    assert_eq!(r.width(), Some(80));
    assert_eq!(r.height(), Some(30));
    assert_eq!(r.size(), Some(Point::new(80, 30)));
    assert_eq!(r.long_side(), Some(80));
    assert_eq!(r.short_side(), Some(30));
    assert_eq!(Width::<Option<i32>>::width(&r), Some(80));
    assert_eq!(Height::<Option<i32>>::height(&r), Some(30));
    let wide = Rect { top: 0, left: i32::MIN, bottom: 1, right: i32::MAX };
    assert_eq!(wide.width(), None);
    assert_eq!(wide.size(), None);
    assert_eq!(wide.long_side(), None);
}

#[test]
fn rect_corners_and_transpose() {
    let r = Rect { top: 1, left: 2, bottom: 3, right: 4 };
    assert_eq!(r.top_left(), Point::new(1, 2));
    assert_eq!(r.top_right(), Point::new(1, 4));
    assert_eq!(r.bottom_left(), Point::new(3, 2));
    assert_eq!(r.bottom_right(), Point::new(3, 4));
    assert_eq!(r.transpose(), Rect { top: 2, left: 1, bottom: 4, right: 3 });
}

#[test]
fn rect_padded() {
    let r = Rect { top: 0, left: 0, bottom: 10, right: 20 };
    assert_eq!(r.padded(2), Some(Rect { top: 2, left: 2, bottom: 8, right: 18 }));
    let edge = Rect { top: i32::MAX, left: 0, bottom: 10, right: 20 };
    assert_eq!(edge.padded(1), None);
}

#[test]
fn rect_half_and_double() {
    let r = Rect { top: 5, left: 7, bottom: 15, right: 20 };
    // width 13, height 10
    assert_eq!(r.half_rect(), Some(Rect { top: 5, left: 7, bottom: 11, right: 12 }));
    assert_eq!(r.double_rect(), Some(Rect { top: 5, left: 7, bottom: 31, right: 27 }));
    let neg = Rect { top: 0, left: 0, bottom: -3, right: -3 };
    assert_eq!(neg.half_rect(), Some(Rect { top: 0, left: 0, bottom: -2, right: -2 }));
}

#[test]
fn rect_contains() {
    let outer = Rect { top: 0, left: 0, bottom: 10, right: 10 };
    let inner = Rect { top: 2, left: 2, bottom: 10, right: 5 };
    assert!(outer.contains(&inner));
    assert!(!inner.contains(&outer));
    assert!(outer.contains(&Point::new(0, 9)));
    assert!(!outer.contains(&Point::new(10, 0)));
}

#[test]
fn rect_moves_by_point() {
    let r = Rect { top: 1, left: 2, bottom: 3, right: 4 };
    assert_eq!(r + Point::new(10, 20), Rect { top: 11, left: 22, bottom: 13, right: 24 });
    let r = Rect { top: 1, left: 2, bottom: 3, right: 4 };
    assert_eq!(r - Point::new(1, 1), Rect { top: 0, left: 1, bottom: 2, right: 3 });
}

#[test]
fn rect_from_size_and_corner() {
    assert_eq!(IRect::try_from((640u32, 480u32)).unwrap(), Rect { top: 0, left: 0, bottom: 480, right: 640 });
    assert!(IRect::try_from((u32::MAX, 1u32)).is_err());
    assert!(IRect::try_from((1u32, 1u32 << 31)).is_err());
    assert_eq!(IRect::from(Point::new(7, 9)), Rect { top: 0, left: 0, bottom: 7, right: 9 });
}

#[test]
fn point_difference() {
    assert_eq!(Point::new(5, -3) - Point::new(2, 4), Point::new(3, -7));
}
