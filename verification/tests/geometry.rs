use region_to_share::geometry::{PixelFormat, Point, Rectangle};

#[test]
fn test_point_creation() {
    let p = Point::new(10, 20);
    assert_eq!(p.x, 10);
    assert_eq!(p.y, 20);
}

#[test]
fn test_rectangle_area() {
    let rect = Rectangle::new(0, 0, 100, 50);
    assert_eq!(rect.area(), 5000);
}

#[test]
fn test_rectangle_from_points() {
    let p1 = Point::new(10, 20);
    let p2 = Point::new(50, 80);
    let rect = Rectangle::from_points(p1, p2);
    assert_eq!(rect.x, 10);
    assert_eq!(rect.y, 20);
    assert_eq!(rect.width, 40);
    assert_eq!(rect.height, 60);
}

#[test]
fn test_rectangle_center() {
    let rect = Rectangle::new(10, 20, 100, 50);
    let center = rect.center();
    assert_eq!(center.x, 60);
    assert_eq!(center.y, 45);
}

#[test]
fn test_rectangle_contains_point() {
    let rect = Rectangle::new(10, 10, 100, 100);
    assert!(rect.contains_point(&Point::new(50, 50)));
    assert!(rect.contains_point(&Point::new(10, 10)));
    assert!(!rect.contains_point(&Point::new(110, 110)));
    assert!(!rect.contains_point(&Point::new(5, 50)));
}

#[test]
fn test_rectangle_intersects() {
    let rect1 = Rectangle::new(0, 0, 100, 100);
    let rect2 = Rectangle::new(50, 50, 100, 100);
    let rect3 = Rectangle::new(200, 200, 100, 100);

    assert!(rect1.intersects(&rect2));
    assert!(rect2.intersects(&rect1));
    assert!(!rect1.intersects(&rect3));
}

#[test]
fn test_rectangle_intersection() {
    let rect1 = Rectangle::new(0, 0, 100, 100);
    let rect2 = Rectangle::new(50, 50, 100, 100);
    let intersection = rect1.intersection(&rect2).unwrap();

    assert_eq!(intersection.x, 50);
    assert_eq!(intersection.y, 50);
    assert_eq!(intersection.width, 50);
    assert_eq!(intersection.height, 50);

    let rect3 = Rectangle::new(200, 200, 100, 100);
    assert!(rect1.intersection(&rect3).is_none());
}

#[test]
fn test_rectangle_corners() {
    let rect = Rectangle::new(10, 20, 100, 50);
    assert_eq!(rect.top_left(), Point::new(10, 20));
    assert_eq!(rect.top_right(), Point::new(110, 20));
    assert_eq!(rect.bottom_left(), Point::new(10, 70));
    assert_eq!(rect.bottom_right(), Point::new(110, 70));
}

#[test]
fn test_pixel_format_bytes() {
    assert_eq!(PixelFormat::BGRA8888.bytes_per_pixel(), 4);
    assert_eq!(PixelFormat::RGBA8888.bytes_per_pixel(), 4);
    assert_eq!(PixelFormat::ARGB8888.bytes_per_pixel(), 4);
    assert_eq!(PixelFormat::RGB888.bytes_per_pixel(), 3);
    assert_eq!(PixelFormat::BGR888.bytes_per_pixel(), 3);
}

#[test]
fn test_pixel_format_alpha() {
    assert!(PixelFormat::BGRA8888.has_alpha());
    assert!(PixelFormat::RGBA8888.has_alpha());
    assert!(PixelFormat::ARGB8888.has_alpha());
    assert!(!PixelFormat::RGB888.has_alpha());
    assert!(!PixelFormat::BGR888.has_alpha());
}

#[test]
fn from_points_reversed_gives_same_rectangle() {
    let a = Rectangle::from_points(Point::new(50, 80), Point::new(10, 20));
    let b = Rectangle::from_points(Point::new(10, 20), Point::new(50, 80));
    assert_eq!(a, b);
    assert_eq!(a.bottom_right(), Point::new(50, 80));
}

#[test]
fn from_points_mixed_corners() {
    let r = Rectangle::from_points(Point::new(-5, 30), Point::new(15, -10));
    assert_eq!(r, Rectangle::new(-5, -10, 20, 40));
}

#[test]
fn intersection_commutes_and_holds_common_points() {
    let a = Rectangle::new(-20, 5, 60, 30);
    let b = Rectangle::new(10, -5, 100, 20);
    let c = a.intersection(&b).unwrap();
    assert_eq!(c, b.intersection(&a).unwrap());
    assert_eq!(c, Rectangle::new(10, 5, 30, 10));
    for x in -25..120 {
        for y in -10..40 {
            let p = Point::new(x, y);
            assert_eq!(c.contains_point(&p), a.contains_point(&p) && b.contains_point(&p));
        }
    }
}

#[test]
fn touching_rectangles_do_not_intersect() {
    let a = Rectangle::new(0, 0, 10, 10);
    let b = Rectangle::new(10, 0, 10, 10);
    assert!(!a.intersects(&b));
    assert!(a.intersection(&b).is_none());
}

#[test]
fn center_of_odd_sizes_rounds_down() {
    let r = Rectangle::new(-7, 3, 5, 9);
    assert_eq!(r.center(), Point::new(-5, 7));
    assert!(r.contains_point(&r.center()));
}

#[test]
fn area_of_largest_rectangle() {
    let r = Rectangle::new(0, 0, u32::MAX, u32::MAX);
    assert_eq!(r.area(), (u32::MAX as u64) * (u32::MAX as u64));
}

#[test]
fn wide_rectangle_edges_wrap_like_i32_casts() {
    // a width above i32::MAX reads as a negative i32, as the cast does
    let r = Rectangle::new(5, 0, 0x8000_0000, 10);
    assert!(!r.contains_point(&Point::new(6, 1)));
}
