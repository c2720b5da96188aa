//! The formats the catalogue tells apart, and the table that maps the
//! suffix of a file name to one of them.

use crate::path::suffix;
use crate::text::{chars_of, lowercase, same_as, to_lowercase};
use vstd::prelude::*;

verus! {

/// The formats a file can be declared or found to be. `UNKNOWN` stands for
/// everything that is not one of the others.
#[derive(Clone, Copy, Debug, PartialEq, Eq, Structural, Hash)]
pub enum Extension {
    JPG,
    MP4,
    PNG,
    GIF,
    BMP,
    TIFF,
    ICO,
    PSD,
    WEBP,
    MOV,
    HEIF,
    JXL,
    UNKNOWN,
}

impl Default for Extension {
    fn default() -> (r: Self)
        ensures
            r == Extension::UNKNOWN,
    {
        Extension::UNKNOWN
    }
}

impl Extension {
    /// Whether the format is one of still images, which have pixel
    /// dimensions to decode.
    pub open spec fn is_image(self) -> bool {
        match self {
            Extension::MP4 | Extension::MOV | Extension::UNKNOWN => false,
            _ => true,
        }
    }

    /// Whether the format is one of still images.
    pub fn has_dimensions(&self) -> (r: bool)
        ensures
            r == self.is_image(),
    {
        match self {
            Extension::MP4 | Extension::MOV | Extension::UNKNOWN => false,
            _ => true,
        }
    }
}

/// The table from lower-case suffixes to formats. A suffix that the table
/// does not hold maps to `UNKNOWN`.
pub open spec fn extension_of(suffix: Seq<char>) -> Extension {
    if suffix == "jpg"@ || suffix == "jpeg"@ {
        Extension::JPG
    } else if suffix == "mp4"@ {
        Extension::MP4
    } else if suffix == "png"@ {
        Extension::PNG
    } else if suffix == "gif"@ {
        Extension::GIF
    } else if suffix == "bmp"@ {
        Extension::BMP
    } else if suffix == "tiff"@ || suffix == "tif"@ {
        Extension::TIFF
    } else if suffix == "ico"@ {
        Extension::ICO
    } else if suffix == "psd"@ {
        Extension::PSD
    } else if suffix == "webp"@ {
        Extension::WEBP
    } else if suffix == "mov"@ {
        Extension::MOV
    } else if suffix == "heif"@ {
        Extension::HEIF
    } else if suffix == "jxl"@ {
        Extension::JXL
    } else {
        Extension::UNKNOWN
    }
}

/// The format that the name of `path` declares: what the table gives for
/// the lower-cased suffix, `UNKNOWN` where the path has no suffix.
pub open spec fn declared_extension(path: Seq<char>) -> Extension {
    match suffix(path) {
        Some(s) => extension_of(lowercase(s)),
        None => Extension::UNKNOWN,
    }
}

/// The format that the table gives for a suffix already in lower case.
pub fn lookup_suffix(lower: &[char]) -> (r: Extension)
    ensures
        r == extension_of(lower@),
{
    if same_as(lower, "jpg") || same_as(lower, "jpeg") {
        Extension::JPG
    } else if same_as(lower, "mp4") {
        Extension::MP4
    } else if same_as(lower, "png") {
        Extension::PNG
    } else if same_as(lower, "gif") {
        Extension::GIF
    } else if same_as(lower, "bmp") {
        Extension::BMP
    } else if same_as(lower, "tiff") || same_as(lower, "tif") {
        Extension::TIFF
    } else if same_as(lower, "ico") {
        Extension::ICO
    } else if same_as(lower, "psd") {
        Extension::PSD
    } else if same_as(lower, "webp") {
        Extension::WEBP
    } else if same_as(lower, "mov") {
        Extension::MOV
    } else if same_as(lower, "heif") {
        Extension::HEIF
    } else if same_as(lower, "jxl") {
        Extension::JXL
    } else {
        Extension::UNKNOWN
    }
}

/// The format that a suffix stands for, whatever the case of its letters.
pub fn match_extension(value: &str) -> (r: Extension)
    ensures
        r == extension_of(lowercase(value@)),
{
    let chars = chars_of(value);
    let lower = to_lowercase(chars.as_slice());
    lookup_suffix(lower.as_slice())
}

} // verus!
