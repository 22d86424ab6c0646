use image::{DynamicImage, ImageBuffer, Bgra, LumaA, RgbImage};
use pngimage::color::{BitDepth, ColorClass, ColorModel};
use pngimage::dynamic::load_dynamic_image;
use pngimage::record::png_image_from_decoded;

fn two_by_two_rgb() -> Vec<u8> {
    vec![255, 0, 0, 0, 255, 0, 0, 0, 255, 255, 255, 255]
}

#[test]
fn rgb8_parts_become_a_record() {
    let r = png_image_from_decoded(2, 2, ColorClass::Rgb8, two_by_two_rgb());
    assert_eq!(r.width, 2);
    assert_eq!(r.height, 2);
    assert_eq!(r.color_type, ColorModel::Rgb);
    assert_eq!(r.bit_depth, BitDepth::Eight);
    assert_eq!(r.data, two_by_two_rgb());
}

#[test]
fn rgb8_bitmap_becomes_a_record() {
    let buf = RgbImage::from_raw(2, 2, two_by_two_rgb()).unwrap();
    let r = load_dynamic_image(DynamicImage::ImageRgb8(buf)).unwrap();
    assert_eq!(r.width, 2);
    assert_eq!(r.height, 2);
    assert_eq!(r.color_type, ColorModel::Rgb);
    assert_eq!(r.bit_depth, BitDepth::Eight);
    assert_eq!(r.data, two_by_two_rgb());
}

#[test]
fn bitmap_dimensions_are_kept() {
    let buf: ImageBuffer<LumaA<u16>, Vec<u16>> = ImageBuffer::new(5, 3);
    let r = load_dynamic_image(DynamicImage::ImageLumaA16(buf)).unwrap();
    assert_eq!((r.width, r.height), (5, 3));
    assert_eq!(r.color_type, ColorModel::GrayscaleAlpha);
    assert_eq!(r.bit_depth, BitDepth::Sixteen);
    assert_eq!(r.data.len(), 5 * 3 * 2 * 2);
}

#[test]
fn bgra_bitmap_is_tagged_rgba_without_reordering() {
    let px = vec![1u8, 2, 3, 4];
    let buf: ImageBuffer<Bgra<u8>, Vec<u8>> = ImageBuffer::from_raw(1, 1, px.clone()).unwrap();
    let r = load_dynamic_image(DynamicImage::ImageBgra8(buf)).unwrap();
    assert_eq!(r.color_type, ColorModel::Rgba);
    assert_eq!(r.bit_depth, BitDepth::Eight);
    assert_eq!(r.data, px);
}

#[test]
fn unlisted_class_keeps_dimensions_and_bytes() {
    let r = png_image_from_decoded(7, 1, ColorClass::Other, vec![9; 21]);
    assert_eq!((r.width, r.height), (7, 1));
    assert_eq!(r.color_type, ColorModel::Rgb);
    assert_eq!(r.bit_depth, BitDepth::Eight);
    assert_eq!(r.data, vec![9; 21]);
}

#[test]
fn empty_bitmap_becomes_empty_record() {
    let r = png_image_from_decoded(0, 0, ColorClass::L8, Vec::new());
    assert_eq!((r.width, r.height), (0, 0));
    assert!(r.data.is_empty());
}
