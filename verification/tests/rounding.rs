use image_widget::round::{effective_radius, round};
use image_widget::Raster;

fn filled(width: u32, height: u32) -> Raster {
    let mut data = Vec::new();
    for i in 0..(width as usize * height as usize) {
        data.extend_from_slice(&[(i % 251) as u8, (i % 7) as u8 + 1, 77, 255]);
    }
    Raster::from_raw(width, height, data).unwrap()
}

fn transparent_pixels(raster: &Raster) -> Vec<(u32, u32)> {
    let (width, height) = raster.dimensions();
    let mut cut = Vec::new();
    for y in 0..height {
        for x in 0..width {
            if raster.get_pixel(x, y)[3] == 0 {
                cut.push((x, y));
            }
        }
    }
    cut
}

#[test]
fn radius_is_clamped_to_half_the_side() {
    assert_eq!(effective_radius(1000, 40, 40), 20);
    assert_eq!(effective_radius(1000, 40, 10), 5);
    assert_eq!(effective_radius(1000, 9, 40), 4);
    assert_eq!(effective_radius(3, 40, 40), 3);
    assert_eq!(effective_radius(20, 40, 40), 20);
    assert_eq!(effective_radius(0, 40, 40), 0);
    assert_eq!(effective_radius(7, 1, 1), 0);
    assert_eq!(effective_radius(u32::MAX, u32::MAX, u32::MAX), u32::MAX / 2);
}

#[test]
fn any_large_radius_rounds_like_half_the_side() {
    let reference = round(filled(40, 40), 20);
    for radius in [20u32, 21, 40, 1000, u32::MAX] {
        let out = round(filled(40, 40), radius);
        assert_eq!(out.as_raw(), reference.as_raw());
    }
    let reference = round(filled(9, 30), 4);
    for radius in [4u32, 5, 15, 4000] {
        let out = round(filled(9, 30), radius);
        assert_eq!(out.as_raw(), reference.as_raw());
    }
}

#[test]
fn radius_zero_changes_nothing() {
    let source = filled(12, 9);
    let bytes = source.as_raw().clone();
    let out = round(source, 0);
    assert_eq!(out.dimensions(), (12, 9));
    assert_eq!(out.as_raw(), &bytes);
}

#[test]
fn radius_one_cuts_nothing() {
    let out = round(filled(6, 6), 1);
    assert!(transparent_pixels(&out).is_empty());
}

#[test]
fn radius_two_cuts_the_four_corner_pixels() {
    let out = round(filled(4, 4), 2);
    assert_eq!(transparent_pixels(&out), vec![(0, 0), (3, 0), (0, 3), (3, 3)]);
}

#[test]
fn radius_five_cuts_five_pixels_in_each_corner() {
    let out = round(filled(12, 10), 5);
    let mut expected = vec![
        (0, 0), (1, 0), (2, 0), (9, 0), (10, 0), (11, 0),
        (0, 1), (11, 1),
        (0, 2), (11, 2),
        (0, 7), (11, 7),
        (0, 8), (11, 8),
        (0, 9), (1, 9), (2, 9), (9, 9), (10, 9), (11, 9),
    ];
    expected.sort_by_key(|&(x, y)| (y, x));
    assert_eq!(transparent_pixels(&out), expected);
}

#[test]
fn rounding_leaves_colours_and_other_alphas_alone() {
    let source = filled(16, 16);
    let before = source.as_raw().clone();
    let out = round(source, 8);
    assert_eq!(out.dimensions(), (16, 16));
    for (i, (&new, &old)) in out.as_raw().iter().zip(before.iter()).enumerate() {
        if i % 4 == 3 {
            assert!(new == old || new == 0);
        } else {
            assert_eq!(new, old);
        }
    }
    let centre = out.get_pixel(8, 8);
    assert_eq!(centre[3], 255);
    assert_eq!(out.get_pixel(0, 8)[3], 255);
    assert_eq!(out.get_pixel(8, 0)[3], 255);
    assert_eq!(out.get_pixel(0, 0)[3], 0);
    assert_eq!(out.get_pixel(15, 15)[3], 0);
}

#[test]
fn rounding_is_symmetric() {
    let out = round(filled(21, 14), 6);
    let (width, height) = out.dimensions();
    for y in 0..height {
        for x in 0..width {
            let a = out.get_pixel(x, y)[3];
            assert_eq!(a, out.get_pixel(width - 1 - x, y)[3]);
            assert_eq!(a, out.get_pixel(x, height - 1 - y)[3]);
        }
    }
}

#[test]
fn rounding_an_empty_raster() {
    let out = round(Raster::from_raw(0, 0, Vec::new()).unwrap(), 9);
    assert_eq!(out.dimensions(), (0, 0));
}
