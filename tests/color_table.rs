use pngimage::color::{convert_color_png_type, BitDepth, ColorClass, ColorModel};

#[test]
fn eight_bit_classes_map_to_their_models() {
    assert_eq!(convert_color_png_type(ColorClass::L8), (ColorModel::Grayscale, BitDepth::Eight));
    assert_eq!(convert_color_png_type(ColorClass::Rgb8), (ColorModel::Rgb, BitDepth::Eight));
    assert_eq!(convert_color_png_type(ColorClass::La8), (ColorModel::GrayscaleAlpha, BitDepth::Eight));
    assert_eq!(convert_color_png_type(ColorClass::Rgba8), (ColorModel::Rgba, BitDepth::Eight));
}

#[test]
fn blue_first_classes_are_relabelled() {
    assert_eq!(convert_color_png_type(ColorClass::Bgra8), (ColorModel::Rgba, BitDepth::Eight));
    assert_eq!(convert_color_png_type(ColorClass::Bgr8), (ColorModel::Rgb, BitDepth::Eight));
}

#[test]
fn sixteen_bit_classes_map_to_their_models() {
    assert_eq!(convert_color_png_type(ColorClass::L16), (ColorModel::Grayscale, BitDepth::Sixteen));
    assert_eq!(convert_color_png_type(ColorClass::Rgb16), (ColorModel::Rgb, BitDepth::Sixteen));
    assert_eq!(convert_color_png_type(ColorClass::La16), (ColorModel::GrayscaleAlpha, BitDepth::Sixteen));
    assert_eq!(convert_color_png_type(ColorClass::Rgba16), (ColorModel::Rgba, BitDepth::Sixteen));
}

#[test]
fn unlisted_class_falls_back_to_rgb8() {
    assert_eq!(convert_color_png_type(ColorClass::Other), (ColorModel::Rgb, BitDepth::Eight));
}

#[test]
fn every_class_gets_a_listed_pair() {
    let all = [
        ColorClass::L8, ColorClass::La8, ColorClass::Rgb8, ColorClass::Rgba8,
        ColorClass::L16, ColorClass::La16, ColorClass::Rgb16, ColorClass::Rgba16,
        ColorClass::Bgr8, ColorClass::Bgra8, ColorClass::Other,
    ];
    for c in all.iter() {
        let (m, d) = convert_color_png_type(*c);
        assert_ne!(m, ColorModel::Indexed);
        assert!(d == BitDepth::Eight || d == BitDepth::Sixteen);
    }
}

#[test]
fn color_model_codes() {
    assert_eq!(ColorModel::from_u8(0), Some(ColorModel::Grayscale));
    assert_eq!(ColorModel::from_u8(2), Some(ColorModel::Rgb));
    assert_eq!(ColorModel::from_u8(3), Some(ColorModel::Indexed));
    assert_eq!(ColorModel::from_u8(4), Some(ColorModel::GrayscaleAlpha));
    assert_eq!(ColorModel::from_u8(6), Some(ColorModel::Rgba));
    assert_eq!(ColorModel::from_u8(1), None);
    assert_eq!(ColorModel::from_u8(5), None);
    assert_eq!(ColorModel::from_u8(255), None);
}

#[test]
fn bit_depth_codes() {
    assert_eq!(BitDepth::from_u8(1), Some(BitDepth::One));
    assert_eq!(BitDepth::from_u8(2), Some(BitDepth::Two));
    assert_eq!(BitDepth::from_u8(4), Some(BitDepth::Four));
    assert_eq!(BitDepth::from_u8(8), Some(BitDepth::Eight));
    assert_eq!(BitDepth::from_u8(16), Some(BitDepth::Sixteen));
    assert_eq!(BitDepth::from_u8(0), None);
    assert_eq!(BitDepth::from_u8(3), None);
    assert_eq!(BitDepth::from_u8(32), None);
}
