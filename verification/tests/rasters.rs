use image_widget::geom::product;
use image_widget::{Point, Raster, Rect};

#[test]
fn new_raster_is_transparent() {
    let r = Raster::new(3, 2);
    assert_eq!(r.dimensions(), (3, 2));
    assert_eq!(r.width(), 3);
    assert_eq!(r.height(), 2);
    assert_eq!(r.as_raw(), &vec![0u8; 24]);
}

#[test]
fn from_raw_wants_four_bytes_per_pixel() {
    assert!(Raster::from_raw(2, 2, vec![0; 16]).is_some());
    assert!(Raster::from_raw(2, 2, vec![0; 15]).is_none());
    assert!(Raster::from_raw(2, 2, vec![0; 17]).is_none());
    assert!(Raster::from_raw(2, 2, vec![0; 20]).is_none());
    assert!(Raster::from_raw(0, 9, Vec::new()).is_some());
    assert!(Raster::from_raw(0, 9, vec![0; 4]).is_none());
    assert!(Raster::from_raw(u32::MAX, u32::MAX, vec![0; 4]).is_none());
}

#[test]
fn pixels_are_stored_row_by_row() {
    let data: Vec<u8> = (0..24).collect();
    let r = Raster::from_raw(3, 2, data.clone()).unwrap();
    assert_eq!(r.get_pixel(0, 0), [0, 1, 2, 3]);
    assert_eq!(r.get_pixel(2, 0), [8, 9, 10, 11]);
    assert_eq!(r.get_pixel(0, 1), [12, 13, 14, 15]);
    assert_eq!(r.get_pixel(2, 1), [20, 21, 22, 23]);
    assert_eq!(r.into_raw(), data);
}

#[test]
fn products_do_not_overflow() {
    assert_eq!(product(0, 7), 0);
    assert_eq!(product(6, 7), 42);
    assert_eq!(product(u32::MAX, u32::MAX), 18446744065119617025);
}

#[test]
fn rect_accessors() {
    let r = Rect::new(-3, 4, 10, 20);
    assert_eq!(r.top_left(), Point::new(-3, 4));
    assert_eq!((r.w, r.h), (10, 20));
    assert!(r.fits_memory());
    assert!(Rect::new(0, 0, 0, u32::MAX).fits_memory());
    assert!(!Rect::new(0, 0, u32::MAX, u32::MAX).fits_memory());
}
