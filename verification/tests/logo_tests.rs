use std::io::Cursor;

use factura_pdf::logo::{
    logo_image, optimized_logo_path, recompress_jpeg, ImageDataError, LOGO_JPEG_QUALITY,
    LOGO_MAX_SIDE,
};
use factura_pdf::qr::PdfColorSpace;
use image::codecs::jpeg::JpegEncoder;
use image::imageops::FilterType;
use image::{DynamicImage, ExtendedColorType, ImageFormat, Rgb, RgbImage};

fn sample_png(width: u32, height: u32) -> Vec<u8> {
    let img = RgbImage::from_fn(width, height, |x, y| {
        Rgb([(x * 7 % 256) as u8, (y * 13 % 256) as u8, ((x + y) % 256) as u8])
    });
    let mut out = Cursor::new(Vec::new());
    DynamicImage::ImageRgb8(img).write_to(&mut out, ImageFormat::Png).unwrap();
    out.into_inner()
}

#[test]
fn logo_is_fitted_and_kept_in_rgb() {
    let bytes = sample_png(500, 300);
    let pdf = logo_image("logo.png", &bytes).unwrap();
    assert_eq!((pdf.width, pdf.height), (250, 150));
    assert_eq!(pdf.color_space, PdfColorSpace::Rgb);
    assert_eq!(pdf.bits_per_component, 8);
    assert!(!pdf.interpolate);
    assert_eq!(pdf.image_data.len(), 3 * 250 * 150);

    let expected = image::load_from_memory(&bytes)
        .unwrap()
        .resize(LOGO_MAX_SIDE, LOGO_MAX_SIDE, FilterType::Lanczos3)
        .to_rgb8();
    assert_eq!(pdf.image_data, expected.into_raw());
}

#[test]
fn small_logo_is_enlarged_to_fit() {
    let bytes = sample_png(50, 100);
    let pdf = logo_image("logo.png", &bytes).unwrap();
    assert_eq!((pdf.width, pdf.height), (125, 250));
    let pdf = logo_image("logo.png", &sample_png(333, 100)).unwrap();
    assert_eq!((pdf.width, pdf.height), (250, 75));
}

#[test]
fn logo_that_is_no_image() {
    assert_eq!(logo_image("logo.jpg", b"not an image").err(), Some(ImageDataError::Undecodable));
    assert_eq!(recompress_jpeg("logo.jpg", b"not an image", 50).err(), Some(ImageDataError::Undecodable));
}

#[test]
fn decoder_is_chosen_by_the_extension() {
    let png = sample_png(10, 10);
    assert!(logo_image("logo.png", &png).is_ok());
    assert_eq!(logo_image("logo.jpg", &png).err(), Some(ImageDataError::Undecodable));
    assert_eq!(logo_image("logo", &png).err(), Some(ImageDataError::Undecodable));
    assert_eq!(logo_image("logo.xyz", &png).err(), Some(ImageDataError::Undecodable));
    assert_eq!(recompress_jpeg("logo.jpg", &png, 50).err(), Some(ImageDataError::Undecodable));
    let jpeg = recompress_jpeg("logo.PNG", &png, 50).unwrap();
    assert!(logo_image("logo.jpg_optimized.jpg", &jpeg).is_ok());
}

#[test]
fn recompressed_logo_is_a_jpeg_of_the_image() {
    let bytes = sample_png(40, 20);
    let jpeg = recompress_jpeg("logo.png", &bytes, LOGO_JPEG_QUALITY).unwrap();
    let rgb = image::load_from_memory(&bytes).unwrap().to_rgb8();
    let mut expected = Vec::new();
    JpegEncoder::new_with_quality(&mut expected, 50)
        .encode(rgb.as_raw(), 40, 20, ExtendedColorType::Rgb8)
        .unwrap();
    assert_eq!(jpeg, expected);
    assert_eq!(image::guess_format(&jpeg).unwrap(), ImageFormat::Jpeg);
}

#[test]
fn optimized_path_sits_beside_the_logo() {
    assert_eq!(optimized_logo_path("./logos/logo.jpg"), "./logos/logo.jpg_optimized.jpg");
}
