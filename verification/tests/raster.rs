use bmp2png::raster::{RasterImage, Rgb};

const RED: Rgb = Rgb { r: 255, g: 0, b: 0 };
const GREEN: Rgb = Rgb { r: 0, g: 255, b: 0 };
const BLUE: Rgb = Rgb { r: 0, g: 0, b: 255 };

#[test]
fn image_holds_three_samples_per_pixel() {
    let image = RasterImage::from_pixels(2, 1, &[RED, BLUE]).unwrap();
    assert_eq!(image.width(), 2);
    assert_eq!(image.height(), 1);
    assert_eq!(image.data(), &[255, 0, 0, 0, 0, 255]);
}

#[test]
fn samples_come_red_green_blue() {
    let image = RasterImage::from_pixels(1, 1, &[Rgb { r: 1, g: 2, b: 3 }]).unwrap();
    assert_eq!(image.data(), &[1, 2, 3]);
}

#[test]
fn sample_count_is_width_times_height_times_three() {
    let pixels = vec![GREEN; 7 * 5];
    let image = RasterImage::from_pixels(7, 5, &pixels).unwrap();
    assert_eq!(image.data().len(), 7 * 5 * 3);
    let image = RasterImage::from_pixels(5, 7, &pixels).unwrap();
    assert_eq!(image.data().len(), 5 * 7 * 3);
}

#[test]
fn rows_follow_each_other_without_padding() {
    let pixels = [RED, GREEN, BLUE, BLUE, GREEN, RED];
    let image = RasterImage::from_pixels(3, 2, &pixels).unwrap();
    assert_eq!(
        image.data(),
        &[255, 0, 0, 0, 255, 0, 0, 0, 255, 0, 0, 255, 0, 255, 0, 255, 0, 0]
    );
}

#[test]
fn pixel_is_found_by_column_and_row() {
    let pixels = [RED, GREEN, BLUE, BLUE, GREEN, RED];
    let image = RasterImage::from_pixels(3, 2, &pixels).unwrap();
    assert_eq!(image.pixel(0, 0), Some(RED));
    assert_eq!(image.pixel(1, 0), Some(GREEN));
    assert_eq!(image.pixel(2, 0), Some(BLUE));
    assert_eq!(image.pixel(0, 1), Some(BLUE));
    assert_eq!(image.pixel(2, 1), Some(RED));
}

#[test]
fn pixel_outside_the_image_is_none() {
    let image = RasterImage::from_pixels(3, 2, &[RED; 6]).unwrap();
    assert_eq!(image.pixel(3, 0), None);
    assert_eq!(image.pixel(0, 2), None);
    assert_eq!(image.pixel(u32::MAX, u32::MAX), None);
}

#[test]
fn same_pixels_make_different_images_at_different_sizes() {
    let pixels = [RED, GREEN, BLUE, BLUE, GREEN, RED];
    let wide = RasterImage::from_pixels(3, 2, &pixels).unwrap();
    let tall = RasterImage::from_pixels(2, 3, &pixels).unwrap();
    assert_eq!(wide.data(), tall.data());
    assert_eq!(wide.pixel(0, 1), Some(BLUE));
    assert_eq!(tall.pixel(0, 1), Some(BLUE));
    assert_eq!(tall.pixel(1, 1), Some(BLUE));
    assert_ne!(wide, tall);
}

#[test]
fn zero_width_or_height_makes_no_image() {
    assert_eq!(RasterImage::from_pixels(0, 1, &[]), None);
    assert_eq!(RasterImage::from_pixels(1, 0, &[]), None);
    assert_eq!(RasterImage::from_pixels(0, 0, &[]), None);
}

#[test]
fn wrong_pixel_count_makes_no_image() {
    assert_eq!(RasterImage::from_pixels(2, 2, &[RED; 3]), None);
    assert_eq!(RasterImage::from_pixels(2, 2, &[RED; 5]), None);
    assert_eq!(RasterImage::from_pixels(1, 1, &[]), None);
    assert_eq!(RasterImage::from_pixels(u32::MAX, u32::MAX, &[RED]), None);
}
