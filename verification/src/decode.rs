//! Image decoding, done by the `image` crate.

use vstd::prelude::*;
use crate::texture::ImageData;

verus! {

/// The error type of the `image` crate. Nothing is known of its values.
#[verifier::external_type_specification]
#[verifier::external_body]
pub struct ExImageError(image::ImageError);

/// The image formats that the `image` crate knows. Nothing is known of its
/// values.
#[verifier::external_type_specification]
#[verifier::external_body]
pub struct ExImageFormat(image::ImageFormat);

/// A decoded image of the `image` crate, in whatever pixel layout its file
/// had. Nothing is known of its values.
#[verifier::external_type_specification]
#[verifier::external_body]
pub struct ExDynamicImage(image::DynamicImage);

/// The format that the extension of `path` stands for.
///
/// Calls `image::ImageFormat::from_path`. Trusted; nothing is claimed of the
/// outcome.
#[verifier::external_body]
fn format_of_path(path: &str) -> Result<image::ImageFormat, image::ImageError> {
    image::ImageFormat::from_path(path)
}

/// Decodes the contents of an image file of the given format.
///
/// Calls `image::load_from_memory_with_format`. Trusted; nothing is claimed
/// of the outcome: what a decoder yields for given bytes may differ from one
/// machine to another.
#[verifier::external_body]
fn load_image(bytes: &[u8], format: image::ImageFormat) -> Result<
    image::DynamicImage,
    image::ImageError,
> {
    image::load_from_memory_with_format(bytes, format)
}

/// The width, the height and the pixels of a decoded image, four bytes to
/// the pixel: red, green, blue, alpha.
///
/// Calls `image::DynamicImage::to_rgba8` and takes the result apart.
/// Trusted: the buffer of an RGBA8 image holds four bytes for each of its
/// `width * height` pixels.
#[verifier::external_body]
fn rgba8_pixels(image: &image::DynamicImage) -> (out: (u32, u32, Vec<u8>))
    ensures
        out.2@.len() == 4 * out.0 * out.1,
{
    let rgba = image.to_rgba8();
    (rgba.width(), rgba.height(), rgba.into_raw())
}

/// Decodes the contents `file` of the image file at `path`, as far as there
/// are any: the format is taken from the extension of the path. Yields
/// nothing if there are no contents, if the extension names no format, if
/// the contents cannot be decoded in that format, or if a row of the image
/// is too long to be addressed.
pub fn decode_image(path: &str, file: Option<&[u8]>) -> (image: Option<ImageData>)
    ensures
        file is None ==> image is None,
{
    match file {
        None => None,
        Some(bytes) => match format_of_path(path) {
            Err(_) => None,
            Ok(format) => match load_image(bytes, format) {
                Err(_) => None,
                Ok(picture) => {
                    let (width, height, pixels) = rgba8_pixels(&picture);
                    ImageData::new(width, height, pixels)
                },
            },
        },
    }
}

} // verus!
