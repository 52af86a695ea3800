use image_widget::render::{finish, render};
use image_widget::{Alignment, ImageError, ImageMode, Raster, Rect};

fn solid(width: u32, height: u32, px: [u8; 4]) -> Raster {
    let mut data = Vec::new();
    for _ in 0..(width as usize * height as usize) {
        data.extend_from_slice(&px);
    }
    Raster::from_raw(width, height, data).unwrap()
}

#[test]
fn cover_of_a_small_red_square() {
    let rect = Rect::new(0, 0, 100, 100);
    let out = render(Some(solid(50, 50, [255, 0, 0, 255])), rect, ImageMode::Cover, 0, Alignment::Left)
        .unwrap();
    assert_eq!(out.dimensions(), (100, 100));
    assert!(out.as_raw().chunks(4).all(|p| p == [255, 0, 0, 255]));
}

#[test]
fn contain_with_matching_ratio_needs_no_padding() {
    let rect = Rect::new(0, 0, 100, 50);
    let out = render(Some(solid(200, 100, [0, 0, 255, 255])), rect, ImageMode::Contain, 0, Alignment::Left)
        .unwrap();
    assert_eq!(out.dimensions(), (100, 50));
    assert!(out.as_raw().chunks(4).all(|p| p == [0, 0, 255, 255]));
}

#[test]
fn contain_of_a_tall_source_is_padded_on_the_right() {
    let rect = Rect::new(0, 0, 100, 50);
    let out = render(Some(solid(100, 200, [0, 255, 0, 255])), rect, ImageMode::Contain, 0, Alignment::Left)
        .unwrap();
    assert_eq!(out.dimensions(), (100, 50));
    for y in 0..50 {
        for x in 0..100 {
            let expected = if x < 25 { [0, 255, 0, 255] } else { [0, 0, 0, 0] };
            assert_eq!(out.get_pixel(x, y), expected);
        }
    }
}

#[test]
fn contain_of_a_tall_source_centred() {
    let rect = Rect::new(0, 0, 100, 50);
    let out = render(Some(solid(100, 200, [0, 255, 0, 255])), rect, ImageMode::Contain, 0, Alignment::Center)
        .unwrap();
    for x in 0..100 {
        let expected = if (37..62).contains(&x) { [0, 255, 0, 255] } else { [0, 0, 0, 0] };
        assert_eq!(out.get_pixel(x, 10), expected);
    }
}

#[test]
fn raw_source_is_padded_to_the_rect() {
    let rect = Rect::new(0, 0, 4, 3);
    let out = render(Some(solid(2, 2, [7, 7, 7, 255])), rect, ImageMode::Raw, 0, Alignment::Right)
        .unwrap();
    assert_eq!(out.dimensions(), (4, 3));
    for y in 0..3 {
        for x in 0..4 {
            let expected = if x >= 2 && y < 2 { [7, 7, 7, 255] } else { [0, 0, 0, 0] };
            assert_eq!(out.get_pixel(x, y), expected);
        }
    }
}

#[test]
fn output_always_has_the_rect_size() {
    for mode in [ImageMode::Raw, ImageMode::Cover, ImageMode::Contain] {
        for (w, h) in [(1u32, 1u32), (3, 9), (9, 3), (8, 6), (20, 20)] {
            let rect = Rect::new(1, 2, 8, 6);
            let out = render(Some(solid(w, h, [1, 2, 3, 255])), rect, mode, 2, Alignment::Center)
                .unwrap();
            assert_eq!(out.dimensions(), (8, 6));
        }
    }
}

#[test]
fn missing_source_is_a_decode_failure() {
    let rect = Rect::new(0, 0, 10, 10);
    for mode in [ImageMode::Raw, ImageMode::Cover, ImageMode::Contain] {
        assert_eq!(
            render(None, rect, mode, 3, Alignment::Left).err(),
            Some(ImageError::DecodeFailure)
        );
    }
}

#[test]
fn contain_of_a_flat_source_is_an_invalid_dimension() {
    let rect = Rect::new(0, 0, 10, 10);
    let flat = Raster::from_raw(4, 0, Vec::new()).unwrap();
    assert_eq!(
        render(Some(flat), rect, ImageMode::Contain, 0, Alignment::Left).err(),
        Some(ImageError::InvalidDimension)
    );
}

#[test]
fn cover_of_a_flat_source_is_transparent() {
    let rect = Rect::new(0, 0, 3, 2);
    let flat = Raster::from_raw(4, 0, Vec::new()).unwrap();
    let out = render(Some(flat), rect, ImageMode::Cover, 0, Alignment::Left).unwrap();
    assert_eq!(out.dimensions(), (3, 2));
    assert_eq!(out.as_raw(), &vec![0u8; 24]);
}

#[test]
fn corners_are_rounded_before_padding() {
    let rect = Rect::new(0, 0, 6, 4);
    let out = finish(solid(4, 4, [50, 60, 70, 255]), rect, 1000, Alignment::Right);
    assert_eq!(out.dimensions(), (6, 4));
    for y in 0..4 {
        for x in 0..6 {
            let corner = (x == 2 || x == 5) && (y == 0 || y == 3);
            let expected = if x < 2 || corner { [0, 0, 0, 0] } else { [50, 60, 70, 255] };
            assert_eq!(out.get_pixel(x, y), expected);
        }
    }
}

#[test]
fn rounding_uses_the_scaled_size() {
    let rect = Rect::new(0, 0, 40, 40);
    let large = render(Some(solid(10, 10, [1, 2, 3, 255])), rect, ImageMode::Cover, 1000, Alignment::Left)
        .unwrap();
    let half = render(Some(solid(10, 10, [1, 2, 3, 255])), rect, ImageMode::Cover, 20, Alignment::Left)
        .unwrap();
    assert_eq!(large.as_raw(), half.as_raw());
    assert_eq!(large.get_pixel(0, 0)[3], 0);
    assert_eq!(large.get_pixel(20, 20), [1, 2, 3, 255]);
    assert_eq!(large.get_pixel(0, 20), [1, 2, 3, 255]);
}
