//! The image record that both entry points produce, and the errors of the
//! PNG path.
use vstd::prelude::*;
use crate::color::{BitDepth, ColorClass, ColorModel, color_table, convert_color_png_type};

verus! {

/// A decoded image: its dimensions, its raw pixel bytes (row-major, laid
/// out as `color_type` and `bit_depth` say) and its PNG color description.
#[derive(Clone, Debug, PartialEq, Eq)]
pub struct PNGImage {
    pub width: u32,
    pub height: u32,
    pub data: Vec<u8>,
    pub color_type: ColorModel,
    pub bit_depth: BitDepth,
}

/// The step of PNG decoding at which the stream was found unusable.
#[derive(Clone, Copy, Debug, PartialEq, Eq, Structural)]
pub enum DecodeStage {
    /// The signature or the metadata before the first image data.
    Header,
    /// The image data of the first frame.
    Frame,
}

/// Why an image could not be loaded.
#[derive(Clone, Copy, Debug, PartialEq, Eq, Structural)]
pub enum LoadError {
    /// The file could not be opened or read.
    IoError,
    /// The bytes are not a well-formed PNG stream.
    DecodeError(DecodeStage),
}

/// Assembles the record of a decoded bitmap from its dimensions, its color
/// classification and its pixel bytes, translating the classification
/// through the color table. The bytes are taken as they are.
pub fn png_image_from_decoded(width: u32, height: u32, color: ColorClass, data: Vec<u8>) -> (r: PNGImage)
    ensures
        r.width == width,
        r.height == height,
        r.data@ == data@,
        (r.color_type, r.bit_depth) == color_table(color),
{
    let (color_type, bit_depth) = convert_color_png_type(color);
    PNGImage { width, height, data, color_type, bit_depth }
}

} // verus!
