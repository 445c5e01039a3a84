use region_to_share::cursor::{
    argb_to_rgba, blit_fits, blit_target, cursor_info_from_image, cursor_placement, placement_fits,
    BlitTarget, CursorInfo,
};
use region_to_share::geometry::{Point, Rectangle};

#[test]
fn test_cursor_info_creation() {
    let info = CursorInfo {
        position: Point::new(100, 200),
        hotspot: Point::new(5, 5),
        width: 32,
        height: 32,
        pixels: vec![0; 32 * 32 * 4],
    };

    assert_eq!(info.position.x, 100);
    assert_eq!(info.position.y, 200);
    assert_eq!(info.width, 32);
    assert_eq!(info.height, 32);
}

#[test]
fn argb_unpacks_to_rgba() {
    let out = argb_to_rgba(&[0x80112233, 0xFF000000]);
    assert_eq!(out, vec![0x11, 0x22, 0x33, 0x80, 0, 0, 0, 0xFF]);
}

#[test]
fn cursor_from_image() {
    assert!(cursor_info_from_image(1, 2, 0, 0, 0, 4, &[]).is_none());
    let info = cursor_info_from_image(-3, 7, 1, 2, 1, 1, &[0x01020304]).unwrap();
    assert_eq!(info.position, Point::new(-3, 7));
    assert_eq!(info.hotspot, Point::new(1, 2));
    assert_eq!((info.width, info.height), (1, 1));
    assert_eq!(info.pixels, vec![2, 3, 4, 1]);
}

fn info_at(x: i32, y: i32, w: u32, h: u32) -> CursorInfo {
    CursorInfo {
        position: Point::new(x, y),
        hotspot: Point::new(2, 2),
        width: w,
        height: h,
        pixels: vec![255; (w * h * 4) as usize],
    }
}

#[test]
fn cursor_placement_inside_and_outside() {
    let region = Rectangle::new(100, 100, 50, 50);
    assert_eq!(cursor_placement(&info_at(110, 120, 4, 4), &region), Some((8, 18)));
    // the image ends one column left of the region: nothing to draw
    assert_eq!(cursor_placement(&info_at(97, 120, 4, 4), &region), None);
    // the image ends exactly at the left edge: still placed (no pixel lands)
    assert_eq!(cursor_placement(&info_at(98, 120, 4, 4), &region), Some((-4, 18)));
    // one pixel overlaps on the left
    assert_eq!(cursor_placement(&info_at(99, 120, 4, 4), &region), Some((-3, 18)));
    assert_eq!(cursor_placement(&info_at(152, 120, 4, 4), &region), None);
    assert_eq!(cursor_placement(&info_at(120, 152, 4, 4), &region), None);
}

#[test]
fn blit_targets() {
    let region = Rectangle::new(0, 0, 10, 10);
    let mut pixels = vec![255u8; 2 * 2 * 4];
    pixels[4 * 3 + 3] = 0; // last cursor pixel transparent
    let buffer_len = 10 * 10 * 4;
    assert_eq!(
        blit_target(3, 4, 1, 0, 2, &region, 4, &pixels, buffer_len),
        Some(BlitTarget { frame_offset: (4 * 10 + 4) * 4, cursor_offset: 4 })
    );
    assert_eq!(blit_target(3, 4, 1, 1, 2, &region, 4, &pixels, buffer_len), None);
    // outside the region
    assert_eq!(blit_target(-1, 4, 0, 0, 2, &region, 4, &pixels, buffer_len), None);
    assert_eq!(blit_target(9, 9, 1, 0, 2, &region, 4, &pixels, buffer_len), None);
    // the covered pixel lies past the buffer
    assert_eq!(blit_target(3, 4, 0, 0, 2, &region, 4, &pixels, 10), None);
    // the cursor image is too short for this pixel
    assert_eq!(blit_target(3, 4, 0, 2, 2, &region, 4, &pixels, buffer_len), None);
}

#[test]
fn placement_fits_detects_overflow() {
    let info = CursorInfo {
        position: Point::new(100, 200),
        hotspot: Point::new(5, 5),
        width: 32,
        height: 32,
        pixels: vec![0; 32 * 32 * 4],
    };
    let region = Rectangle::new(50, 60, 400, 300);
    assert!(placement_fits(&info, &region));
    let far = CursorInfo { position: Point::new(i32::MIN, 0), ..info.clone() };
    assert!(!placement_fits(&far, &region));
}

#[test]
fn blit_fits_detects_overflow() {
    let region = Rectangle::new(0, 0, 100, 100);
    assert!(blit_fits(10, 10, 3, 4, 32, &region, 4));
    // Outside the region nothing is computed beyond the row and column.
    assert!(blit_fits(200, 10, 3, 4, 32, &region, usize::MAX));
    // Inside the region a huge pixel size overflows.
    assert!(!blit_fits(10, 10, 3, 4, 32, &region, usize::MAX));
    assert!(!blit_fits(i32::MAX, 10, 3, 4, 32, &region, 4));
}
