//! Adapting a bitmap decoded by the `image` crate into an image record.
use vstd::prelude::*;
use image::GenericImageView;
use crate::color::{ColorClass, color_table, in_table};
use crate::record::{LoadError, PNGImage, png_image_from_decoded};

verus! {

#[verifier::external_type_specification]
#[verifier::external_body]
pub struct ExDynamicImage(image::DynamicImage);

/// The width, height and color type of a bitmap, as image reports them.
pub uninterp spec fn layout_of(img: image::DynamicImage) -> (u32, u32, ColorClass);

/// The pixel bytes that a bitmap holds, as image copies them out.
pub uninterp spec fn pixels_of(img: image::DynamicImage) -> Seq<u8>;

/// Relies on image::GenericImageView::dimensions: the bitmap's width and
/// height.
#[verifier::external_body]
fn dimensions_of(img: &image::DynamicImage) -> (r: (u32, u32))
    ensures
        r.0 == layout_of(*img).0,
        r.1 == layout_of(*img).1,
{
    img.dimensions()
}

/// Relies on image::DynamicImage::color: the bitmap's color type, one arm
/// per variant of image's `ColorType`.
#[verifier::external_body]
fn color_of(img: &image::DynamicImage) -> (r: ColorClass)
    ensures
        r == layout_of(*img).2,
{
    match img.color() {
        image::ColorType::L8 => ColorClass::L8,
        image::ColorType::La8 => ColorClass::La8,
        image::ColorType::Rgb8 => ColorClass::Rgb8,
        image::ColorType::Rgba8 => ColorClass::Rgba8,
        image::ColorType::L16 => ColorClass::L16,
        image::ColorType::La16 => ColorClass::La16,
        image::ColorType::Rgb16 => ColorClass::Rgb16,
        image::ColorType::Rgba16 => ColorClass::Rgba16,
        image::ColorType::Bgr8 => ColorClass::Bgr8,
        image::ColorType::Bgra8 => ColorClass::Bgra8,
        _ => ColorClass::Other,
    }
}

/// Relies on image::DynamicImage::to_bytes: a copy of the bitmap's pixels
/// as bytes.
#[verifier::external_body]
fn bytes_of(img: &image::DynamicImage) -> (r: Vec<u8>)
    ensures
        r@ == pixels_of(*img),
{
    img.to_bytes()
}

/// Makes an image record of a decoded bitmap: its dimensions, its pixel
/// bytes, and its color type translated through the color table (see
/// `png_image_from_decoded`). Never fails.
pub fn load_dynamic_image(img: image::DynamicImage) -> (r: Result<PNGImage, LoadError>)
    ensures
        r matches Ok(rec) && {
            &&& rec.width == layout_of(img).0
            &&& rec.height == layout_of(img).1
            &&& rec.data@ == pixels_of(img)
            &&& (rec.color_type, rec.bit_depth) == color_table(layout_of(img).2)
            &&& in_table((rec.color_type, rec.bit_depth))
        },
{
    let (width, height) = dimensions_of(&img);
    let color = color_of(&img);
    let data = bytes_of(&img);
    let rec = png_image_from_decoded(width, height, color, data);
    proof {
        crate::color::mapping_is_total(color);
    }
    Ok(rec)
}

} // verus!
