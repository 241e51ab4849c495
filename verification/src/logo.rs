use vstd::prelude::*;

use image::codecs::jpeg::JpegEncoder;
use image::imageops::FilterType;
use image::{DynamicImage, ExtendedColorType, ImageError, ImageFormat, RgbImage};

use crate::qr::{PdfColorSpace, PdfImage};

verus! {

/// The logo is fitted into a square of this many pixels.
pub const LOGO_MAX_SIDE: u32 = 250;

/// The JPEG quality of the lighter copy of the logo.
pub const LOGO_JPEG_QUALITY: u8 = 50;

/// `image`'s error for data it cannot decode or encode.
#[verifier::external_type_specification]
#[verifier::external_body]
pub struct ExImageError(ImageError);

/// What `image::load_from_memory_with_format` decodes from `bytes`, with the
/// format that the extension of the file name `path` gives, converted to
/// 8-bit RGB: the width, the height and the samples row by row, three per
/// pixel; `None` where the extension names no format the crate reads or the
/// bytes are no image in that format.
pub uninterp spec fn decoded_rgb(path: Seq<char>, bytes: Seq<u8>) -> Option<(nat, nat, Seq<u8>)>;

/// What `DynamicImage::resize` with the Lanczos3 filter makes of an 8-bit RGB
/// image of the given size and samples, fitted into `max_width` by
/// `max_height` with its proportions kept: the new width, height and samples.
pub uninterp spec fn resized_rgb(
    width: nat,
    height: nat,
    rgb: Seq<u8>,
    max_width: nat,
    max_height: nat,
) -> (nat, nat, Seq<u8>);

/// The bytes that `JpegEncoder::encode` writes for an 8-bit RGB image at the
/// given quality; `None` where it refuses the image.
pub uninterp spec fn jpeg_encoded(width: nat, height: nat, rgb: Seq<u8>, quality: nat) -> Option<
    Seq<u8>,
>;

/// Calls `image::load_from_memory_with_format` on the bytes of the file
/// `path`, with the format that `ImageFormat::from_path` reads from its
/// extension (as `ImageReader::open` picks the decoder), and converts what it
/// decodes with `to_rgb8`. The contract claims that it fails exactly where the
/// name `decoded_rgb` has no image, that it returns that image otherwise, and,
/// as the crate's `RgbImage` holds, three samples per pixel. The decoding
/// itself is left to the name.
#[verifier::external_body]
fn decode_rgb(path: &str, bytes: &[u8]) -> (r: Result<(u32, u32, Vec<u8>), ImageError>)
    ensures
        r is Ok <==> decoded_rgb(path@, bytes@) is Some,
        r matches Ok((w, h, d)) ==> {
            &&& decoded_rgb(path@, bytes@) == Some((w as nat, h as nat, d@))
            &&& d@.len() == 3 * w * h
        },
{
    match ImageFormat::from_path(path) {
        Ok(format) => match image::load_from_memory_with_format(bytes, format) {
            Ok(img) => {
                let rgb = img.to_rgb8();
                Ok((rgb.width(), rgb.height(), rgb.into_raw()))
            },
            Err(e) => Err(e),
        },
        Err(e) => Err(e),
    }
}

/// Whether a `width` by `height` image, fitted into `max_width` by
/// `max_height` with its proportions kept, may come out `fitted_width` by
/// `fitted_height`: one side equals its bound, and the other stays within its
/// bound and within one pixel of the proportional length.
pub open spec fn fitted_size(
    width: nat,
    height: nat,
    max_width: nat,
    max_height: nat,
    fitted_width: nat,
    fitted_height: nat,
) -> bool {
    ||| {
        &&& fitted_width == max_width
        &&& 1 <= fitted_height <= max_height
        &&& fitted_height * width < height * max_width + width
        &&& height * max_width < fitted_height * width + width
    }
    ||| {
        &&& fitted_height == max_height
        &&& 1 <= fitted_width <= max_width
        &&& fitted_width * height < width * max_height + height
        &&& width * max_height < fitted_width * height + height
    }
}

/// Calls `DynamicImage::resize` with `FilterType::Lanczos3` on the 8-bit RGB
/// image given by its size and samples (wrapped as an `RgbImage`), and reads
/// the result back with `to_rgb8`. The contract claims the result named by
/// `resized_rgb`, three samples per pixel, and what the crate's source shows
/// of the size: the image is fitted into the bounds, so with bounds of at
/// least one pixel each side lies between one and its bound, and, for an image
/// of at least one pixel each way, it is the largest size within the bounds
/// that keeps the proportions, each side rounded to the nearest pixel. The
/// resampling is left to the name.
#[verifier::external_body]
fn resize_rgb_lanczos3(
    width: u32,
    height: u32,
    rgb: Vec<u8>,
    max_width: u32,
    max_height: u32,
) -> (r: (u32, u32, Vec<u8>))
    requires
        rgb@.len() == 3 * width * height,
    ensures
        resized_rgb(width as nat, height as nat, rgb@, max_width as nat, max_height as nat) == (
            r.0 as nat,
            r.1 as nat,
            r.2@,
        ),
        r.2@.len() == 3 * r.0 * r.1,
        1 <= max_width && 1 <= max_height ==> 1 <= r.0 <= max_width && 1 <= r.1 <= max_height,
        1 <= width && 1 <= height && 1 <= max_width && 1 <= max_height ==> fitted_size(
            width as nat,
            height as nat,
            max_width as nat,
            max_height as nat,
            r.0 as nat,
            r.1 as nat,
        ),
{
    let img = RgbImage::from_raw(width, height, rgb).unwrap();
    let resized = DynamicImage::ImageRgb8(img).resize(max_width, max_height, FilterType::Lanczos3).to_rgb8();
    (resized.width(), resized.height(), resized.into_raw())
}

/// Calls `JpegEncoder::encode` for an 8-bit RGB image at the given quality,
/// writing into memory. The contract claims that it fails exactly where the
/// name `jpeg_encoded` has no bytes and returns those bytes otherwise, and, as
/// the crate's source shows (writing to memory cannot fail), that it fails
/// exactly when a side is 0 or above 65535; the encoding is left to the name.
/// The samples must be three per pixel, else the crate panics.
#[verifier::external_body]
fn encode_jpeg(width: u32, height: u32, rgb: &[u8], quality: u8) -> (r: Result<Vec<u8>, ImageError>)
    requires
        rgb@.len() == 3 * width * height,
    ensures
        r is Ok <==> jpeg_encoded(width as nat, height as nat, rgb@, quality as nat) is Some,
        r matches Ok(v) ==> jpeg_encoded(width as nat, height as nat, rgb@, quality as nat) == Some(
            v@,
        ),
        r is Ok <==> (1 <= width <= 65535 && 1 <= height <= 65535),
{
    let mut out: Vec<u8> = Vec::new();
    match JpegEncoder::new_with_quality(&mut out, quality).encode(rgb, width, height, ExtendedColorType::Rgb8) {
        Ok(()) => Ok(out),
        Err(e) => Err(e),
    }
}

/// Why an image file could not be used.
#[derive(Debug, Clone, Copy, PartialEq, Eq, Structural)]
pub enum ImageDataError {
    /// The bytes are no image that can be read.
    Undecodable,
    /// The image could not be written as JPEG.
    EncodingFailed,
}

/// The logo as placed in the document: the decoded image fitted into
/// 250 by 250 pixels, in 8-bit RGB.
pub open spec fn logo_rgb(path: Seq<char>, bytes: Seq<u8>) -> Option<(nat, nat, Seq<u8>)> {
    match decoded_rgb(path, bytes) {
        Some((w, h, d)) => Some(
            resized_rgb(w, h, d, LOGO_MAX_SIDE as nat, LOGO_MAX_SIDE as nat),
        ),
        None => None,
    }
}

/// Turns the bytes of the logo file `path` into the image object placed in
/// the header: decoded as its extension says, fitted into 250 by 250 pixels
/// with its proportions kept, 8-bit RGB, not interpolated.
pub fn logo_image(path: &str, bytes: &[u8]) -> (r: Result<PdfImage, ImageDataError>)
    ensures
        r is Ok <==> logo_rgb(path@, bytes@) is Some,
        r matches Ok(p) ==> {
            &&& p.color_space == PdfColorSpace::Rgb
            &&& p.bits_per_component == 8
            &&& !p.interpolate
            &&& logo_rgb(path@, bytes@) == Some((p.width as nat, p.height as nat, p.image_data@))
            &&& 1 <= p.width <= LOGO_MAX_SIDE
            &&& 1 <= p.height <= LOGO_MAX_SIDE
            &&& p.wf()
            &&& decoded_rgb(path@, bytes@) matches Some((w, h, _)) && (1 <= w && 1 <= h ==> fitted_size(
                w,
                h,
                LOGO_MAX_SIDE as nat,
                LOGO_MAX_SIDE as nat,
                p.width as nat,
                p.height as nat,
            ))
        },
        r matches Err(e) ==> e == ImageDataError::Undecodable,
{
    match decode_rgb(path, bytes) {
        Ok((w, h, data)) => {
            let (rw, rh, resized) = resize_rgb_lanczos3(w, h, data, LOGO_MAX_SIDE, LOGO_MAX_SIDE);
            Ok(
                PdfImage {
                    width: rw as usize,
                    height: rh as usize,
                    color_space: PdfColorSpace::Rgb,
                    bits_per_component: 8,
                    interpolate: false,
                    image_data: resized,
                },
            )
        },
        Err(_) => Err(ImageDataError::Undecodable),
    }
}

/// The lighter copy of an image file: decoded, converted to 8-bit RGB and
/// written again as JPEG at the given quality.
pub open spec fn jpeg_recompressed(path: Seq<char>, bytes: Seq<u8>, quality: nat) -> Option<
    Seq<u8>,
> {
    match decoded_rgb(path, bytes) {
        Some((w, h, d)) => jpeg_encoded(w, h, d, quality),
        None => None,
    }
}

/// Writes the image file `path` again as JPEG at the given quality; it is
/// decoded as its extension says. Once decoded, it is written exactly when
/// each side is between 1 and 65535 pixels.
pub fn recompress_jpeg(path: &str, bytes: &[u8], quality: u8) -> (r: Result<Vec<u8>, ImageDataError>)
    ensures
        r is Ok <==> jpeg_recompressed(path@, bytes@, quality as nat) is Some,
        r matches Ok(v) ==> jpeg_recompressed(path@, bytes@, quality as nat) == Some(v@),
        r matches Err(e) ==> (e == ImageDataError::Undecodable <==> decoded_rgb(path@, bytes@) is None),
        decoded_rgb(path@, bytes@) matches Some((w, h, _)) ==> (r is Ok <==> (1 <= w <= 65535 && 1
            <= h <= 65535)),
{
    match decode_rgb(path, bytes) {
        Ok((w, h, data)) => match encode_jpeg(w, h, data.as_slice(), quality) {
            Ok(out) => Ok(out),
            Err(_) => Err(ImageDataError::EncodingFailed),
        },
        Err(_) => Err(ImageDataError::Undecodable),
    }
}

/// Where the lighter copy of a logo is kept: beside it, named after it.
pub fn optimized_logo_path(logo_path: &str) -> (path: String)
    ensures
        path@ == logo_path@ + "_optimized.jpg"@,
{
    let mut path = String::from_str(logo_path);
    path.append("_optimized.jpg");
    path
}

} // verus!

verus! {

/// The logo is the decoded image resized to fit into 250 by 250 pixels, and
/// a file that cannot be decoded gives no logo.
pub proof fn logo_is_fitted_into_250(path: Seq<char>, bytes: Seq<u8>)
    ensures
        decoded_rgb(path, bytes) is None ==> logo_rgb(path, bytes) is None,
        decoded_rgb(path, bytes) matches Some((w, h, d)) ==> logo_rgb(path, bytes) == Some(
            resized_rgb(w, h, d, 250, 250),
        ),
{
}

/// The lighter copy is the decoded image written as JPEG at the quality
/// asked for, and a file that cannot be decoded gives none.
pub proof fn recompressed_at_asked_quality(path: Seq<char>, bytes: Seq<u8>, quality: nat)
    ensures
        decoded_rgb(path, bytes) is None ==> jpeg_recompressed(path, bytes, quality) is None,
        decoded_rgb(path, bytes) matches Some((w, h, d)) ==> jpeg_recompressed(path, bytes, quality)
            == jpeg_encoded(w, h, d, quality),
{
}

} // verus!
