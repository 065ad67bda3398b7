//! Turning the bytes of an asset file into text and images.
use image::ImageError;
use std::string::FromUtf8Error;
use vstd::prelude::*;
use vstd::utf8::{decode_utf8, valid_utf8};

verus! {

/// The error `String::from_utf8` reports for bytes that are not UTF-8.
#[verifier::external_type_specification]
#[verifier::external_body]
pub struct ExFromUtf8Error(FromUtf8Error);

/// Converts `bytes` into a string through `String::from_utf8` of std, whose
/// documentation promises an error exactly when the bytes are not valid UTF-8, and
/// otherwise the string the bytes encode.
#[verifier::external_body]
fn string_from_utf8(bytes: Vec<u8>) -> (r: Result<String, FromUtf8Error>)
    ensures
        r is Ok <==> valid_utf8(bytes@),
        r matches Ok(s) ==> s@ == decode_utf8(bytes@),
{
    String::from_utf8(bytes)
}

/// Why an asset could not be read as text.
#[derive(Debug)]
pub enum AssetTextError {
    /// the file at `path` is not valid UTF-8
    InvalidUtf8 { path: String, error: FromUtf8Error },
}

/// The text of the asset at `path`, whose bytes are `bytes`.
pub fn decode_text(path: &str, bytes: Vec<u8>) -> (r: Result<String, AssetTextError>)
    ensures
        r is Ok <==> valid_utf8(bytes@),
        r matches Ok(s) ==> s@ == decode_utf8(bytes@),
        r matches Err(AssetTextError::InvalidUtf8 { path: p, .. }) ==> p@ == path@,
{
    match string_from_utf8(bytes) {
        Ok(s) => Ok(s),
        Err(error) => Err(AssetTextError::InvalidUtf8 { path: path.to_owned(), error }),
    }
}

/// The error the `image` crate reports for bytes it cannot decode.
#[verifier::external_type_specification]
#[verifier::external_body]
pub struct ExImageError(ImageError);

/// An image as rows of RGBA pixels, four bytes each, top row first.
#[derive(Debug, Clone)]
pub struct ImageData {
    pub width: u32,
    pub height: u32,
    pub rgba: Vec<u8>,
}

/// The width, height and RGBA bytes that the `image` crate gives for `bytes` through
/// two functions composed: `image::load_from_memory`, which decodes the bytes in the
/// format it guesses from the bytes themselves, then `DynamicImage::to_rgba8`, which
/// converts the decoded image to 8-bit RGBA; None where decoding fails.
pub uninterp spec fn decoded_rgba(bytes: Seq<u8>) -> Option<(u32, u32, Seq<u8>)>;

/// Decodes `bytes` through `image::load_from_memory` and `DynamicImage::to_rgba8` of
/// the `image` crate: both depend on the bytes alone, so the result is the name
/// `decoded_rgba` applied to them; an error where that name is None.
#[verifier::external_body]
fn decode_rgba(bytes: &[u8]) -> (r: Result<ImageData, ImageError>)
    ensures
        match r {
            Ok(img) => decoded_rgba(bytes@) == Some((img.width, img.height, img.rgba@)),
            Err(_) => decoded_rgba(bytes@) is None,
        },
{
    match image::load_from_memory(bytes) {
        Ok(img) => {
            let rgba = img.to_rgba8();
            Ok(ImageData { width: rgba.width(), height: rgba.height(), rgba: rgba.into_raw() })
        },
        Err(error) => Err(error),
    }
}

/// The width, height and RGBA bytes that the `image` crate gives for `bytes` read as a
/// file named `path`, as `image::open` reads a file: decoded in the format that the
/// extension of the name gives (`ImageFormat::from_path`, then `ImageReader::decode`),
/// then converted to 8-bit RGBA by `DynamicImage::to_rgba8`; None where the name gives
/// no format the crate knows or decoding fails.
pub uninterp spec fn decoded_rgba_as(path: Seq<char>, bytes: Seq<u8>) -> Option<(u32, u32, Seq<u8>)>;

/// Decodes `bytes` as a file named `path` through `ImageFormat::from_path`,
/// `ImageReader::with_format` and `ImageReader::decode` of the `image` crate, then
/// `DynamicImage::to_rgba8`: the format comes from the name's extension alone and the
/// pixels from the bytes, so the result is the name `decoded_rgba_as` applied to both;
/// an error where that name is None.
#[verifier::external_body]
pub(crate) fn decode_rgba_as(path: &str, bytes: &[u8]) -> (r: Result<ImageData, ImageError>)
    ensures
        match r {
            Ok(img) => decoded_rgba_as(path@, bytes@) == Some((img.width, img.height, img.rgba@)),
            Err(_) => decoded_rgba_as(path@, bytes@) is None,
        },
{
    let format = image::ImageFormat::from_path(path)?;
    match image::ImageReader::with_format(std::io::Cursor::new(bytes), format).decode() {
        Ok(img) => {
            let rgba = img.to_rgba8();
            Ok(ImageData { width: rgba.width(), height: rgba.height(), rgba: rgba.into_raw() })
        },
        Err(error) => Err(error),
    }
}

/// Why an image asset could not be loaded.
#[derive(Debug)]
pub enum ImageLoadError {
    /// the bytes of the file at `path` are no image the decoder knows
    Decode { path: String, error: ImageError },
}

/// The image held in `bytes`, the contents of the file at `path`.
pub fn load_image(path: &str, bytes: &[u8]) -> (r: Result<ImageData, ImageLoadError>)
    ensures
        match r {
            Ok(img) => decoded_rgba(bytes@) == Some((img.width, img.height, img.rgba@)),
            Err(ImageLoadError::Decode { path: p, .. }) => decoded_rgba(bytes@) is None && p@
                == path@,
        },
{
    match decode_rgba(bytes) {
        Ok(img) => Ok(img),
        Err(error) => Err(ImageLoadError::Decode { path: path.to_owned(), error }),
    }
}

/// The bytes of the file that the `image` crate writes for an image of `width` by
/// `height` RGBA pixels `rgba` saved under the name `path`, as `ImageBuffer::save`
/// writes one: encoded (`write_buffer_with_format`) in the format that the extension of
/// the name gives (`ImageFormat::from_path`); None where the name gives no format the
/// crate can write or the encoder refuses RGBA pixels.
pub uninterp spec fn encoded_rgba_as(path: Seq<char>, width: u32, height: u32, rgba: Seq<u8>) -> Option<Seq<u8>>;

/// Encodes `img` as the file named `path` would hold it, through
/// `ImageFormat::from_path` and `write_buffer_with_format` of the `image` crate: the
/// format comes from the name's extension alone and the bytes from the pixels, so the
/// result is the name `encoded_rgba_as` applied to both; an error where that name is
/// None. The encoders panic on a pixel buffer whose length is not four bytes per pixel,
/// which `requires` leaves out.
#[verifier::external_body]
fn encode_rgba_as(path: &str, img: &ImageData) -> (r: Result<Vec<u8>, ImageError>)
    requires
        img.rgba@.len() == img.width * img.height * 4,
    ensures
        match r {
            Ok(bytes) => encoded_rgba_as(path@, img.width, img.height, img.rgba@) == Some(bytes@),
            Err(_) => encoded_rgba_as(path@, img.width, img.height, img.rgba@) is None,
        },
{
    let format = image::ImageFormat::from_path(path)?;
    let mut out = std::io::Cursor::new(Vec::new());
    let color = image::ExtendedColorType::Rgba8;
    image::write_buffer_with_format(&mut out, &img.rgba, img.width, img.height, color, format)?;
    Ok(out.into_inner())
}

/// Why an image could not be turned into the bytes of an image file.
#[derive(Debug)]
pub enum ImageSaveError {
    /// the name `path` gives no format the encoder can write these pixels in
    Encode { path: String, error: ImageError },
}

/// The bytes of the image file named `path` that holds `img`, in the format the name's
/// extension gives.
pub fn encode_image(path: &str, img: &ImageData) -> (r: Result<Vec<u8>, ImageSaveError>)
    requires
        img.rgba@.len() == img.width * img.height * 4,
    ensures
        match r {
            Ok(bytes) => encoded_rgba_as(path@, img.width, img.height, img.rgba@) == Some(bytes@),
            Err(ImageSaveError::Encode { path: p, .. }) => encoded_rgba_as(
                path@,
                img.width,
                img.height,
                img.rgba@,
            ) is None && p@ == path@,
        },
{
    match encode_rgba_as(path, img) {
        Ok(bytes) => Ok(bytes),
        Err(error) => Err(ImageSaveError::Encode { path: path.to_owned(), error }),
    }
}

} // verus!
