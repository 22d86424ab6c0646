//! The two color vocabularies: the generic classification of a decoded
//! bitmap, and the PNG color model with its bit depth; and the table that
//! translates the first into the second.
use vstd::prelude::*;

verus! {

/// How a decoded bitmap lays out one pixel.
#[derive(Clone, Copy, Debug, PartialEq, Eq, Structural)]
pub enum ColorClass {
    /// 8-bit luminance.
    L8,
    /// 8-bit luminance with alpha.
    La8,
    /// 8-bit red, green, blue.
    Rgb8,
    /// 8-bit red, green, blue, alpha.
    Rgba8,
    /// 16-bit luminance.
    L16,
    /// 16-bit luminance with alpha.
    La16,
    /// 16-bit red, green, blue.
    Rgb16,
    /// 16-bit red, green, blue, alpha.
    Rgba16,
    /// 8-bit blue, green, red.
    Bgr8,
    /// 8-bit blue, green, red, alpha.
    Bgra8,
    /// Any classification the table does not list (palette images, formats
    /// added later).
    Other,
}

/// The PNG color types.
#[derive(Clone, Copy, Debug, PartialEq, Eq, Structural)]
pub enum ColorModel {
    Grayscale,
    Rgb,
    Indexed,
    GrayscaleAlpha,
    Rgba,
}

/// The PNG bit depths: bits per sample.
#[derive(Clone, Copy, Debug, PartialEq, Eq, Structural)]
pub enum BitDepth {
    One,
    Two,
    Four,
    Eight,
    Sixteen,
}

impl ColorModel {
    /// The color type code that a PNG header stores for this model.
    pub open spec fn code(self) -> u8 {
        match self {
            ColorModel::Grayscale => 0,
            ColorModel::Rgb => 2,
            ColorModel::Indexed => 3,
            ColorModel::GrayscaleAlpha => 4,
            ColorModel::Rgba => 6,
        }
    }

    /// The model whose header code is `n`, if there is one.
    pub fn from_u8(n: u8) -> (r: Option<ColorModel>)
        ensures
            r matches Some(m) ==> m.code() == n,
            r is None <==> forall|m: ColorModel| m.code() != n,
    {
        let r = match n {
            0 => Some(ColorModel::Grayscale),
            2 => Some(ColorModel::Rgb),
            3 => Some(ColorModel::Indexed),
            4 => Some(ColorModel::GrayscaleAlpha),
            6 => Some(ColorModel::Rgba),
            _ => None,
        };
        proof {
            if r is None {
                assert forall|m: ColorModel| m.code() != n by {
                    match m {
                        ColorModel::Grayscale => {},
                        ColorModel::Rgb => {},
                        ColorModel::Indexed => {},
                        ColorModel::GrayscaleAlpha => {},
                        ColorModel::Rgba => {},
                    }
                }
            }
        }
        r
    }
}

impl BitDepth {
    /// The number of bits per sample.
    pub open spec fn bits(self) -> u8 {
        match self {
            BitDepth::One => 1,
            BitDepth::Two => 2,
            BitDepth::Four => 4,
            BitDepth::Eight => 8,
            BitDepth::Sixteen => 16,
        }
    }

    /// The depth of `n` bits per sample, if PNG has one.
    pub fn from_u8(n: u8) -> (r: Option<BitDepth>)
        ensures
            r matches Some(d) ==> d.bits() == n,
            r is None <==> forall|d: BitDepth| d.bits() != n,
    {
        let r = match n {
            1 => Some(BitDepth::One),
            2 => Some(BitDepth::Two),
            4 => Some(BitDepth::Four),
            8 => Some(BitDepth::Eight),
            16 => Some(BitDepth::Sixteen),
            _ => None,
        };
        proof {
            if r is None {
                assert forall|d: BitDepth| d.bits() != n by {
                    match d {
                        BitDepth::One => {},
                        BitDepth::Two => {},
                        BitDepth::Four => {},
                        BitDepth::Eight => {},
                        BitDepth::Sixteen => {},
                    }
                }
            }
        }
        r
    }
}

/// The translation table. Blue-first layouts are relabelled as their
/// red-first counterparts without moving any byte, and every unlisted
/// classification falls back to 8-bit RGB, which misdescribes its pixels.
pub open spec fn color_table(c: ColorClass) -> (ColorModel, BitDepth) {
    match c {
        ColorClass::L8 => (ColorModel::Grayscale, BitDepth::Eight),
        ColorClass::Rgb8 => (ColorModel::Rgb, BitDepth::Eight),
        ColorClass::La8 => (ColorModel::GrayscaleAlpha, BitDepth::Eight),
        ColorClass::Rgba8 => (ColorModel::Rgba, BitDepth::Eight),
        ColorClass::Bgra8 => (ColorModel::Rgba, BitDepth::Eight),
        ColorClass::Bgr8 => (ColorModel::Rgb, BitDepth::Eight),
        ColorClass::L16 => (ColorModel::Grayscale, BitDepth::Sixteen),
        ColorClass::Rgb16 => (ColorModel::Rgb, BitDepth::Sixteen),
        ColorClass::La16 => (ColorModel::GrayscaleAlpha, BitDepth::Sixteen),
        ColorClass::Rgba16 => (ColorModel::Rgba, BitDepth::Sixteen),
        ColorClass::Other => (ColorModel::Rgb, BitDepth::Eight),
    }
}

/// A pair that some listed (non-fallback) row of the table yields.
pub open spec fn in_table(p: (ColorModel, BitDepth)) -> bool {
    exists|c: ColorClass| c != ColorClass::Other && color_table(c) == p
}

/// Translates a generic color classification into a PNG color model and
/// bit depth. Total: every classification gets a pair.
pub fn convert_color_png_type(ct: ColorClass) -> (r: (ColorModel, BitDepth))
    ensures
        r == color_table(ct),
        in_table(r),
        r.0 != ColorModel::Indexed,
        r.1 == BitDepth::Eight || r.1 == BitDepth::Sixteen,
        ct == ColorClass::Other ==> r == (ColorModel::Rgb, BitDepth::Eight),
{
    let r = match ct {
        ColorClass::L8 => (ColorModel::Grayscale, BitDepth::Eight),
        ColorClass::Rgb8 => (ColorModel::Rgb, BitDepth::Eight),
        ColorClass::La8 => (ColorModel::GrayscaleAlpha, BitDepth::Eight),
        ColorClass::Rgba8 => (ColorModel::Rgba, BitDepth::Eight),
        ColorClass::Bgra8 => (ColorModel::Rgba, BitDepth::Eight),
        ColorClass::Bgr8 => (ColorModel::Rgb, BitDepth::Eight),
        ColorClass::L16 => (ColorModel::Grayscale, BitDepth::Sixteen),
        ColorClass::Rgb16 => (ColorModel::Rgb, BitDepth::Sixteen),
        ColorClass::La16 => (ColorModel::GrayscaleAlpha, BitDepth::Sixteen),
        ColorClass::Rgba16 => (ColorModel::Rgba, BitDepth::Sixteen),
        ColorClass::Other => (ColorModel::Rgb, BitDepth::Eight),
    };
    proof {
        mapping_is_total(ct);
    }
    r
}

/// Every classification, listed or not, is translated into a pair that a
/// listed row of the table yields: never the indexed model, always 8 or 16
/// bits per sample.
pub proof fn mapping_is_total(c: ColorClass)
    ensures
        in_table(color_table(c)),
        color_table(c).0 != ColorModel::Indexed,
        color_table(c).1 == BitDepth::Eight || color_table(c).1 == BitDepth::Sixteen,
{
    let k = if c == ColorClass::Other { ColorClass::Rgb8 } else { c };
    assert(k != ColorClass::Other && color_table(k) == color_table(c));
}

} // verus!
