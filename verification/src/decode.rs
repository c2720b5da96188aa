//! What the image decoder makes of the leading bytes of a file: the format
//! that their signature announces, and the pixel dimensions that the
//! format's header holds.

use crate::extension::Extension;
use crate::text::outcome_view;
use ::imagesize::ImageType;
use vstd::prelude::*;

verus! {

/// The number of leading bytes of a file that are handed to the decoder.
/// A file shorter than this is handed over whole.
pub const SNIFF_PREFIX_LEN: usize = 65536;

/// The formats that the decoder recognises.
#[derive(Clone, Copy, Debug, PartialEq, Eq, Structural)]
pub enum ImageFormat {
    Bmp,
    Gif,
    Heif,
    Jpeg,
    Jxl,
    Png,
    Psd,
    Tiff,
    Webp,
}

/// The format that `imagesize::image_type` reports for a header, or the
/// text of the error that it reports.
pub uninterp spec fn decoded_image_type(header: Seq<u8>) -> Result<ImageFormat, Seq<char>>;

/// The width and height that `imagesize::blob_size` reports for the
/// leading bytes of a file, or the text of the error that it reports.
pub uninterp spec fn decoded_image_size(data: Seq<u8>) -> Result<(usize, usize), Seq<char>>;

/// Calls `imagesize::image_type`, which compares the first bytes of the
/// header with the signatures of the formats it knows. The answer depends
/// on the header alone; nothing else is claimed of it.
#[verifier::external_body]
pub(crate) fn decode_image_type(header: &[u8]) -> (r: Result<ImageFormat, String>)
    ensures
        outcome_view(r) == decoded_image_type(header@),
{
    match ::imagesize::image_type(header) {
        Ok(ImageType::Bmp) => Ok(ImageFormat::Bmp),
        Ok(ImageType::Gif) => Ok(ImageFormat::Gif),
        Ok(ImageType::Heif) => Ok(ImageFormat::Heif),
        Ok(ImageType::Jpeg) => Ok(ImageFormat::Jpeg),
        Ok(ImageType::Jxl) => Ok(ImageFormat::Jxl),
        Ok(ImageType::Png) => Ok(ImageFormat::Png),
        Ok(ImageType::Psd) => Ok(ImageFormat::Psd),
        Ok(ImageType::Tiff) => Ok(ImageFormat::Tiff),
        Ok(ImageType::Webp) => Ok(ImageFormat::Webp),
        Err(e) => Err(e.to_string()),
    }
}

/// Calls `imagesize::blob_size`, which reads the dimensions out of the
/// header of the format that the first twelve bytes announce. The answer
/// depends on the bytes alone; nothing else is claimed of it. The decoder
/// counts and multiplies in `usize` without checks: the bound on the length
/// and the width of `usize` keep that arithmetic within range.
#[verifier::external_body]
pub(crate) fn decode_image_size(data: &[u8]) -> (r: Result<(usize, usize), String>)
    requires
        data@.len() <= SNIFF_PREFIX_LEN,
        usize::BITS == 64,
    ensures
        outcome_view(r) == decoded_image_size(data@),
{
    match ::imagesize::blob_size(data) {
        Ok(size) => Ok((size.width, size.height)),
        Err(e) => Err(e.to_string()),
    }
}

/// Whether this machine is one that the decoder of dimensions is written
/// for: one whose `usize` has 64 bits. The functions that decode
/// dimensions ask it of their callers.
pub fn decoder_is_supported() -> (r: bool)
    ensures
        r == (usize::BITS == 64),
{
    usize::BITS == 64
}

/// The format of the catalogue that stands for a format of the decoder.
pub open spec fn extension_of_format(format: ImageFormat) -> Extension {
    match format {
        ImageFormat::Jpeg => Extension::JPG,
        ImageFormat::Png => Extension::PNG,
        ImageFormat::Gif => Extension::GIF,
        ImageFormat::Bmp => Extension::BMP,
        ImageFormat::Webp => Extension::WEBP,
        ImageFormat::Tiff => Extension::TIFF,
        ImageFormat::Heif => Extension::HEIF,
        ImageFormat::Jxl => Extension::JXL,
        ImageFormat::Psd => Extension::PSD,
    }
}

/// The format of the catalogue that stands for a format of the decoder.
pub fn format_extension(format: ImageFormat) -> (r: Extension)
    ensures
        r == extension_of_format(format),
{
    match format {
        ImageFormat::Jpeg => Extension::JPG,
        ImageFormat::Png => Extension::PNG,
        ImageFormat::Gif => Extension::GIF,
        ImageFormat::Bmp => Extension::BMP,
        ImageFormat::Webp => Extension::WEBP,
        ImageFormat::Tiff => Extension::TIFF,
        ImageFormat::Heif => Extension::HEIF,
        ImageFormat::Jxl => Extension::JXL,
        ImageFormat::Psd => Extension::PSD,
    }
}

/// Width and height as the fields of a record hold them, or a diagnostic:
/// the decoder's own, or that a value does not fit the fields.
pub open spec fn dimension_in_range(decoded: Result<(usize, usize), Seq<char>>) -> Result<
    (u32, u32),
    Seq<char>,
> {
    match decoded {
        Ok((width, height)) => if width <= u32::MAX && height <= u32::MAX {
            Ok((width as u32, height as u32))
        } else {
            Err("Image dimensions out of range"@)
        },
        Err(message) => Err(message),
    }
}

/// Width and height as the fields of a record hold them, or a diagnostic.
pub fn narrow_dimension(decoded: Result<(usize, usize), String>) -> (r: Result<(u32, u32), String>)
    ensures
        outcome_view(r) == dimension_in_range(outcome_view(decoded)),
{
    match decoded {
        Ok((width, height)) => {
            if width <= u32::MAX as usize && height <= u32::MAX as usize {
                Ok((width as u32, height as u32))
            } else {
                Err("Image dimensions out of range".to_owned())
            }
        },
        Err(message) => Err(message),
    }
}

} // verus!
