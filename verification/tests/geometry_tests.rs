use texcache::geometry::{char_pixel_height, FALLBACK_HEIGHT};

#[test]
fn height_is_pixels_per_row() {
    assert_eq!(char_pixel_height(24, 480), 20);
    assert_eq!(char_pixel_height(50, 1080), 21);
    assert_eq!(char_pixel_height(1, 3), 3);
    assert_eq!(char_pixel_height(u16::MAX, u16::MAX), 1);
    assert_eq!(char_pixel_height(100, 3), 0);
}

#[test]
fn fallback_where_pixels_are_not_reported() {
    assert_eq!(FALLBACK_HEIGHT, 28);
    assert_eq!(char_pixel_height(24, 0), 28);
    assert_eq!(char_pixel_height(24, 1), 28);
    assert_eq!(char_pixel_height(24, 2), 28);
    assert_eq!(char_pixel_height(0, 0), 28);
    assert_eq!(char_pixel_height(0, 2), 28);
}
