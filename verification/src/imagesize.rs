//! The format and the pixel dimensions of a file, from its bytes, in one
//! step that gives up at the first failure.

use crate::decode::{
    decode_image_size, decode_image_type, decoded_image_size, decoded_image_type,
    dimension_in_range, extension_of_format, format_extension, narrow_dimension, ImageFormat,
};
use crate::error::{ApplicationError, ApplicationErrorView};
use crate::extension::Extension;
use crate::file::plain_result_view;
use crate::images::{parse_first_n_bytes, sniff_prefix};
use crate::text::outcome_view;
use vstd::prelude::*;
use vstd::slice::slice_subrange;

verus! {

/// The number of leading bytes of a file that hold the signature of its
/// format.
pub const HEADER_LEN: usize = 12;

#[derive(Clone, Copy, Debug, Default, PartialEq, Eq)]
pub struct ImageSizeDetails {
    pub width: u32,
    pub height: u32,
    pub extension: Extension,
}

/// The bytes that hold the signature: the first `HEADER_LEN` of them, or
/// all where there are fewer.
pub open spec fn header_of(bytes: Seq<u8>) -> Seq<u8> {
    if bytes.len() <= HEADER_LEN {
        bytes
    } else {
        bytes.take(HEADER_LEN as int)
    }
}

/// What the decoder's answer on the dimensions means for the file at
/// `path`: width and height, or a `LibraryParseError` with the diagnostic.
pub open spec fn dimension_of(
    path: Seq<char>,
    decoded: Result<(usize, usize), Seq<char>>,
) -> Result<(u32, u32), ApplicationErrorView> {
    match dimension_in_range(decoded) {
        Ok(size) => Ok(size),
        Err(message) => Err(ApplicationErrorView::LibraryParseError(path, message)),
    }
}

/// What the decoder's answer on the format means for the file at `path`:
/// the format, or a `LibraryParseError` with the diagnostic.
pub open spec fn file_type_of(path: Seq<char>, decoded: Result<ImageFormat, Seq<char>>) -> Result<
    Extension,
    ApplicationErrorView,
> {
    match decoded {
        Ok(format) => Ok(extension_of_format(format)),
        Err(message) => Err(ApplicationErrorView::LibraryParseError(path, message)),
    }
}

/// The details that the decoder's two answers give for the file at
/// `path`, or the first error: the dimensions are looked at first.
pub open spec fn image_size_details_of(
    path: Seq<char>,
    size: Result<(usize, usize), Seq<char>>,
    format: Result<ImageFormat, Seq<char>>,
) -> Result<ImageSizeDetails, ApplicationErrorView> {
    match dimension_of(path, size) {
        Err(e) => Err(e),
        Ok((width, height)) => match file_type_of(path, format) {
            Err(e) => Err(e),
            Ok(extension) => Ok(
                ImageSizeDetails { width: width, height: height, extension: extension },
            ),
        },
    }
}

/// What the decoder's answer on the dimensions means for the file at `path`.
pub fn dimension_from_decoded(path: &str, decoded: Result<(usize, usize), String>) -> (r: Result<
    (u32, u32),
    ApplicationError,
>)
    ensures
        plain_result_view(r) == dimension_of(path@, outcome_view(decoded)),
{
    match narrow_dimension(decoded) {
        Ok(size) => Ok(size),
        Err(message) => Err(ApplicationError::LibraryParseError(path.to_owned(), message)),
    }
}

/// What the decoder's answer on the format means for the file at `path`.
pub fn file_type_from_decoded(path: &str, decoded: Result<ImageFormat, String>) -> (r: Result<
    Extension,
    ApplicationError,
>)
    ensures
        plain_result_view(r) == file_type_of(path@, outcome_view(decoded)),
{
    match decoded {
        Ok(format) => Ok(format_extension(format)),
        Err(message) => Err(ApplicationError::LibraryParseError(path.to_owned(), message)),
    }
}

/// The width and height that the leading bytes of the file at `path` hold.
/// The decoder behind it is written for machines whose `usize` has 64 bits.
pub fn parse_dimension_from_bytes(path: &str, bytes: &[u8]) -> (r: Result<
    (u32, u32),
    ApplicationError,
>)
    requires
        usize::BITS == 64,
    ensures
        plain_result_view(r) == dimension_of(path@, decoded_image_size(sniff_prefix(bytes@))),
{
    dimension_from_decoded(path, decode_image_size(parse_first_n_bytes(bytes)))
}

/// The format that the signature in the first bytes of the file at `path`
/// shows.
pub fn parse_file_type_from_bytes(path: &str, bytes: &[u8]) -> (r: Result<
    Extension,
    ApplicationError,
>)
    ensures
        plain_result_view(r) == file_type_of(path@, decoded_image_type(header_of(bytes@))),
{
    let header = if bytes.len() <= HEADER_LEN {
        bytes
    } else {
        slice_subrange(bytes, 0, HEADER_LEN)
    };
    file_type_from_decoded(path, decode_image_type(header))
}

/// The dimensions and the format of the file at `path`, from its bytes, or
/// the first error met. The decoder behind it is written for machines
/// whose `usize` has 64 bits.
pub fn parse_using_imagesize(path: &str, bytes: &[u8]) -> (r: Result<
    ImageSizeDetails,
    ApplicationError,
>)
    requires
        usize::BITS == 64,
    ensures
        plain_result_view(r) == image_size_details_of(
            path@,
            decoded_image_size(sniff_prefix(bytes@)),
            decoded_image_type(header_of(bytes@)),
        ),
{
    let (width, height) = match parse_dimension_from_bytes(path, bytes) {
        Ok(size) => size,
        Err(e) => {
            return Err(e);
        },
    };
    let extension = match parse_file_type_from_bytes(path, bytes) {
        Ok(extension) => extension,
        Err(e) => {
            return Err(e);
        },
    };
    Ok(ImageSizeDetails { width, height, extension })
}

} // verus!
