//! What is kept of the EXIF data of a file.

use crate::error::{ApplicationError, ApplicationErrorView};
use crate::text::outcome_view;
use vstd::prelude::*;

verus! {

/// The number that stands in `ExifDetails` until fields are read out of
/// the EXIF data.
pub const PLACEHOLDER_CONTENT_LENGTH: u64 = 200;

#[derive(Clone, Copy, Debug, Default, PartialEq, Eq)]
pub struct ExifDetails {
    pub content_length: u64,
}

/// What the attempt to read the EXIF data of the file at `path` means:
/// the details where the data could be read, an `ExifParseError` with the
/// reader's message where it could not.
pub open spec fn exif_details_of(path: Seq<char>, outcome: Result<(), Seq<char>>) -> Result<
    ExifDetails,
    ApplicationErrorView,
> {
    match outcome {
        Ok(_) => Ok(ExifDetails { content_length: PLACEHOLDER_CONTENT_LENGTH }),
        Err(message) => Err(ApplicationErrorView::ExifParseError(path, message)),
    }
}

/// The EXIF details of the file at `path`, from the outcome of reading its
/// EXIF data.
pub fn parse_exif_details(path: &str, outcome: &Result<(), String>) -> (r: Result<
    ExifDetails,
    ApplicationError,
>)
    ensures
        match r {
            Ok(details) => exif_details_of(path@, outcome_view(*outcome)) == Ok::<
                ExifDetails,
                ApplicationErrorView,
            >(details),
            Err(e) => exif_details_of(path@, outcome_view(*outcome)) == Err::<
                ExifDetails,
                ApplicationErrorView,
            >(e@),
        },
{
    match outcome {
        Ok(_) => Ok(ExifDetails { content_length: PLACEHOLDER_CONTENT_LENGTH }),
        Err(message) => Err(ApplicationError::ExifParseError(path.to_owned(), message.clone())),
    }
}

} // verus!
