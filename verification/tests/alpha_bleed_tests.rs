use asset_upload::alpha_bleed::alpha_bleed;
use asset_upload::raster::{Image, Pixel};

fn image(width: u32, height: u32, rgba: &[u8]) -> Image {
    Image::from_rgba(width, height, rgba).expect("four bytes for each pixel")
}

fn px(r: u8, g: u8, b: u8, a: u8) -> Pixel {
    Pixel { r, g, b, a }
}

#[test]
fn bleed_gives_transparent_pixel_the_colour_of_its_neighbour() {
    let mut img = image(2, 1, &[255, 0, 0, 255, 0, 0, 0, 0]);
    alpha_bleed(&mut img);
    assert_eq!(img.pixels, vec![px(255, 0, 0, 255), px(255, 0, 0, 0)]);
    assert_eq!(img.to_rgba(), vec![255, 0, 0, 255, 255, 0, 0, 0]);
}

#[test]
fn bleed_leaves_single_transparent_pixel_alone() {
    let mut img = image(1, 1, &[9, 8, 7, 0]);
    alpha_bleed(&mut img);
    assert_eq!(img.width(), 1);
    assert_eq!(img.height(), 1);
    assert_eq!(img.pixels, vec![px(9, 8, 7, 0)]);
}

#[test]
fn bleed_accepts_empty_image() {
    let mut img = image(0, 0, &[]);
    alpha_bleed(&mut img);
    assert_eq!(img.pixels.len(), 0);
    let mut flat = image(0, 5, &[]);
    alpha_bleed(&mut flat);
    assert_eq!(flat.pixels.len(), 0);
}

#[test]
fn bleed_keeps_size_and_alpha() {
    let rgba: Vec<u8> = vec![
        1, 2, 3, 0, 4, 5, 6, 7, 8, 9, 10, 0, //
        11, 12, 13, 0, 14, 15, 16, 0, 17, 18, 19, 200,
    ];
    let mut img = image(3, 2, &rgba);
    alpha_bleed(&mut img);
    assert_eq!(img.width(), 3);
    assert_eq!(img.height(), 2);
    let out = img.to_rgba();
    assert_eq!(out.len(), rgba.len());
    for i in 0..6 {
        assert_eq!(out[4 * i + 3], rgba[4 * i + 3]);
    }
    // pixels that are not fully transparent keep their colour
    assert_eq!(img.pixels[1], px(4, 5, 6, 7));
    assert_eq!(img.pixels[5], px(17, 18, 19, 200));
}

#[test]
fn bleed_twice_is_bleed_once() {
    let rgba: Vec<u8> = vec![
        1, 2, 3, 0, 4, 5, 6, 7, 8, 9, 10, 0, 50, 60, 70, 0, //
        11, 12, 13, 0, 14, 15, 16, 0, 17, 18, 19, 200, 80, 90, 100, 0,
    ];
    let mut once = image(4, 2, &rgba);
    alpha_bleed(&mut once);
    let first = once.to_rgba();
    alpha_bleed(&mut once);
    assert_eq!(once.to_rgba(), first);
}

#[test]
fn bleed_without_transparent_pixels_changes_nothing() {
    let rgba: Vec<u8> = vec![1, 2, 3, 1, 4, 5, 6, 255, 7, 8, 9, 128, 10, 11, 12, 3];
    let mut img = image(2, 2, &rgba);
    alpha_bleed(&mut img);
    assert_eq!(img.to_rgba(), rgba);
}

#[test]
fn bleed_without_opaque_pixels_changes_nothing() {
    let rgba: Vec<u8> = vec![1, 2, 3, 0, 4, 5, 6, 0, 7, 8, 9, 0, 10, 11, 12, 0];
    let mut img = image(2, 2, &rgba);
    alpha_bleed(&mut img);
    assert_eq!(img.to_rgba(), rgba);
}

#[test]
fn bleed_gives_the_same_result_each_time() {
    let rgba: Vec<u8> = vec![
        0, 0, 0, 0, 200, 100, 50, 255, 0, 0, 0, 0, //
        0, 0, 0, 0, 0, 0, 0, 0, 10, 20, 30, 40, //
        0, 0, 0, 0, 0, 0, 0, 0, 0, 0, 0, 0,
    ];
    let mut a = image(3, 3, &rgba);
    let mut b = image(3, 3, &rgba);
    alpha_bleed(&mut a);
    alpha_bleed(&mut b);
    assert_eq!(a.to_rgba(), b.to_rgba());
}

#[test]
fn bleed_takes_colour_from_nearest_opaque_pixel() {
    // red, three transparent pixels, blue
    let rgba: Vec<u8> = vec![
        255, 0, 0, 255, 1, 1, 1, 0, 2, 2, 2, 0, 3, 3, 3, 0, 0, 0, 255, 255,
        9, 9, 9, 0,
    ];
    let mut img = image(6, 1, &rgba);
    alpha_bleed(&mut img);
    assert_eq!(
        img.pixels,
        vec![
            px(255, 0, 0, 255),
            px(255, 0, 0, 0),
            px(255, 0, 0, 0),
            px(0, 0, 255, 0),
            px(0, 0, 255, 255),
            px(0, 0, 255, 0),
        ]
    );
}

#[test]
fn bleed_prefers_the_source_that_comes_first_in_the_image() {
    // the middle pixel is next to both opaque pixels: the first one wins
    let mut row = image(3, 1, &[255, 0, 0, 255, 0, 0, 0, 0, 0, 0, 255, 255]);
    alpha_bleed(&mut row);
    assert_eq!(row.pixels[1], px(255, 0, 0, 0));
    // the centre is next to the pixel above (green) and the pixel to the left
    // (blue): green comes first in the image
    let rgba: Vec<u8> = vec![
        0, 0, 0, 0, 0, 255, 0, 255, 0, 0, 0, 0, //
        0, 0, 255, 255, 0, 0, 0, 0, 0, 0, 0, 0,
    ];
    let mut img = image(3, 2, &rgba);
    alpha_bleed(&mut img);
    assert_eq!(img.pixels[4], px(0, 255, 0, 0));
    assert_eq!(img.pixels[0], px(0, 255, 0, 0));
    assert_eq!(img.pixels[2], px(0, 255, 0, 0));
    assert_eq!(img.pixels[5], px(0, 255, 0, 0));
}

#[test]
fn bleed_does_not_wrap_around_rows() {
    // the last pixel of the first row and the first of the second are no
    // neighbours
    let rgba: Vec<u8> = vec![
        0, 0, 0, 0, 0, 0, 0, 0, 7, 7, 7, 255, //
        5, 5, 5, 0, 0, 0, 0, 0, 0, 0, 0, 0, //
        9, 9, 9, 255, 0, 0, 0, 0, 0, 0, 0, 0,
    ];
    let mut img = image(3, 3, &rgba);
    alpha_bleed(&mut img);
    // pixel 3 is one step from pixel 6 (below) and three steps from pixel 2
    assert_eq!(img.pixels[3], px(9, 9, 9, 0));
    assert_eq!(img.pixels[1], px(7, 7, 7, 0));
}

#[test]
fn from_rgba_wants_four_bytes_for_each_pixel() {
    assert!(Image::from_rgba(2, 1, &[0; 7]).is_none());
    assert!(Image::from_rgba(2, 1, &[0; 9]).is_none());
    assert!(Image::from_rgba(2, 2, &[0; 8]).is_none());
    assert!(Image::from_rgba(0, 1, &[0; 4]).is_none());
    assert!(Image::from_rgba(u32::MAX, u32::MAX, &[0; 4]).is_none());
    let img = Image::from_rgba(2, 1, &[1, 2, 3, 4, 5, 6, 7, 8]).expect("eight bytes for two pixels");
    assert_eq!(img.pixels, vec![px(1, 2, 3, 4), px(5, 6, 7, 8)]);
    assert_eq!(img.to_rgba(), vec![1, 2, 3, 4, 5, 6, 7, 8]);
}

#[test]
fn pixel_is_found_by_column_and_row() {
    let img = image(2, 2, &[1, 1, 1, 1, 2, 2, 2, 2, 3, 3, 3, 3, 4, 4, 4, 4]);
    assert_eq!(img.pixel(0, 0), Some(px(1, 1, 1, 1)));
    assert_eq!(img.pixel(1, 0), Some(px(2, 2, 2, 2)));
    assert_eq!(img.pixel(0, 1), Some(px(3, 3, 3, 3)));
    assert_eq!(img.pixel(1, 1), Some(px(4, 4, 4, 4)));
    assert_eq!(img.pixel(2, 0), None);
    assert_eq!(img.pixel(0, 2), None);
}
