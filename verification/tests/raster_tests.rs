use lander::raster::{
    bar_image, filled_image, plate_image, sample_nearest, solid, start_button_image, Sprite,
};

fn px(s: &Sprite, x: u32, y: u32) -> [u8; 4] {
    s.image.get_pixel(x, y).0
}

#[test]
fn solid_is_one_pixel_of_the_colour() {
    let s = solid(5, 5, 20, 255);
    assert_eq!(s.image.dimensions(), (1, 1));
    assert_eq!(px(&s, 0, 0), [5, 5, 20, 255]);
}

#[test]
fn filled_image_is_uniform() {
    let s = filled_image(9, 4, (160, 200, 255, 220));
    assert_eq!(s.image.dimensions(), (9, 4));
    for y in 0..4 {
        for x in 0..9 {
            assert_eq!(px(&s, x, y), [160, 200, 255, 220]);
        }
    }
}

#[test]
fn filled_image_of_no_pixels() {
    let s = filled_image(0, 7, (1, 2, 3, 4));
    assert_eq!(s.image.dimensions(), (0, 7));
}

#[test]
fn bar_image_frame_fill_and_background() {
    let s = bar_image(10, 4, 6, 80, 200, 255);
    assert_eq!(s.image.dimensions(), (10, 4));
    // frame
    for x in 0..10 {
        assert_eq!(px(&s, x, 0), [200, 200, 200, 255]);
        assert_eq!(px(&s, x, 3), [200, 200, 200, 255]);
    }
    for y in 0..4 {
        assert_eq!(px(&s, 0, y), [200, 200, 200, 255]);
        assert_eq!(px(&s, 9, y), [200, 200, 200, 255]);
    }
    // filled columns 1..6, background from 6
    for x in 1..6 {
        assert_eq!(px(&s, x, 1), [80, 200, 255, 255]);
        assert_eq!(px(&s, x, 2), [80, 200, 255, 255]);
    }
    for x in 6..9 {
        assert_eq!(px(&s, x, 1), [30, 30, 40, 220]);
    }
}

#[test]
fn bar_image_full_and_empty() {
    let full = bar_image(400, 36, 400, 255, 120, 80);
    assert_eq!(px(&full, 398, 20), [255, 120, 80, 255]);
    let empty = bar_image(400, 36, 0, 255, 120, 80);
    assert_eq!(px(&empty, 1, 20), [30, 30, 40, 220]);
    assert_eq!(px(&empty, 0, 20), [200, 200, 200, 255]);
}

#[test]
fn bar_image_one_pixel_is_frame() {
    let s = bar_image(1, 1, 1, 1, 2, 3);
    assert_eq!(px(&s, 0, 0), [200, 200, 200, 255]);
}

#[test]
fn start_button_has_double_frame() {
    let s = start_button_image(500, 120);
    assert_eq!(s.image.dimensions(), (500, 120));
    assert_eq!(px(&s, 0, 50), [60, 120, 180, 240]);
    assert_eq!(px(&s, 1, 50), [60, 120, 180, 240]);
    assert_eq!(px(&s, 2, 50), [60, 40, 180, 240]);
    assert_eq!(px(&s, 498, 50), [60, 120, 180, 240]);
    assert_eq!(px(&s, 497, 50), [60, 40, 180, 240]);
    assert_eq!(px(&s, 250, 1), [60, 120, 180, 240]);
    assert_eq!(px(&s, 250, 118), [60, 120, 180, 240]);
    assert_eq!(px(&s, 250, 60), [60, 40, 180, 240]);
}

#[test]
fn start_button_tiny_sizes() {
    let s = start_button_image(1, 1);
    assert_eq!(px(&s, 0, 0), [60, 120, 180, 240]);
    let s = start_button_image(3, 3);
    for y in 0..3 {
        for x in 0..3 {
            assert_eq!(px(&s, x, y), [60, 120, 180, 240]);
        }
    }
}

#[test]
fn plate_brightens_frame_and_saturates() {
    let s = plate_image(480, 120, (60, 40, 180));
    assert_eq!(px(&s, 0, 0), [120, 100, 180, 240]);
    assert_eq!(px(&s, 100, 60), [80, 60, 180, 240]);
    let bright = plate_image(4, 4, (250, 200, 7));
    assert_eq!(px(&bright, 0, 2), [255, 255, 7, 240]);
    assert_eq!(px(&bright, 1, 1), [255, 220, 7, 240]);
}

#[test]
fn sample_nearest_copies_in_bounds_and_clears_outside() {
    let src = bar_image(3, 2, 2, 9, 8, 7);
    // mirror horizontally, and send the last row out of bounds
    let from = vec![
        vec![(2, 0), (1, 0), (0, 0)],
        vec![(-1, 0), (3, 1), (0, 2)],
    ];
    let dst = sample_nearest(&src, &from);
    assert_eq!(dst.image.dimensions(), (3, 2));
    assert_eq!(px(&dst, 0, 0), px(&src, 2, 0));
    assert_eq!(px(&dst, 1, 0), px(&src, 1, 0));
    assert_eq!(px(&dst, 2, 0), px(&src, 0, 0));
    assert_eq!(px(&dst, 0, 1), [0, 0, 0, 0]);
    assert_eq!(px(&dst, 1, 1), [0, 0, 0, 0]);
    assert_eq!(px(&dst, 2, 1), [0, 0, 0, 0]);
}

#[test]
fn sample_nearest_identity_keeps_the_image() {
    let src = plate_image(5, 3, (10, 20, 30));
    let from: Vec<Vec<(i32, i32)>> =
        (0..3).map(|y| (0..5).map(|x| (x, y)).collect()).collect();
    let dst = sample_nearest(&src, &from);
    assert_eq!(dst.image, src.image);
}
