//! The record of one file as the single-step parsers fill it: each part is
//! there once its parser succeeded.

use crate::exif::ExifDetails;
use crate::file::{FileDetails, FileDetailsView};
use crate::imagesize::ImageSizeDetails;
use vstd::prelude::*;

verus! {

#[derive(Clone, Debug, Default, PartialEq, Eq)]
pub struct Metadata {
    pub path: String,
    pub file_details: Option<FileDetails>,
    pub image_size_details: Option<ImageSizeDetails>,
    pub exif_details: Option<ExifDetails>,
}

/// The mathematical content of a record.
pub struct MetadataView {
    pub path: Seq<char>,
    pub file_details: Option<FileDetailsView>,
    pub image_size_details: Option<ImageSizeDetails>,
    pub exif_details: Option<ExifDetails>,
}

impl View for Metadata {
    type V = MetadataView;

    open spec fn view(&self) -> MetadataView {
        MetadataView {
            path: self.path@,
            file_details: match self.file_details {
                Some(details) => Some(details@),
                None => None,
            },
            image_size_details: self.image_size_details,
            exif_details: self.exif_details,
        }
    }
}

/// The mathematical content of file details that may be missing.
pub open spec fn details_view(details: Option<FileDetails>) -> Option<FileDetailsView> {
    match details {
        Some(d) => Some(d@),
        None => None,
    }
}

impl Metadata {
    /// The record of `path` with no part filled.
    pub fn new(path: String) -> (r: Self)
        ensures
            r@ == (MetadataView {
                path: path@,
                file_details: None,
                image_size_details: None,
                exif_details: None,
            }),
    {
        Metadata { path, file_details: None, image_size_details: None, exif_details: None }
    }

    pub fn update_file_details(&mut self, file_details: Option<FileDetails>)
        ensures
            final(self)@ == (MetadataView {
                file_details: details_view(file_details),
                ..old(self)@
            }),
    {
        self.file_details = file_details;
    }

    pub fn update_image_size_details(&mut self, image_size_details: Option<ImageSizeDetails>)
        ensures
            final(self)@ == (MetadataView {
                image_size_details: image_size_details,
                ..old(self)@
            }),
    {
        self.image_size_details = image_size_details;
    }

    pub fn update_exif_details(&mut self, exif_details: Option<ExifDetails>)
        ensures
            final(self)@ == (MetadataView { exif_details: exif_details, ..old(self)@ }),
    {
        self.exif_details = exif_details;
    }
}

} // verus!
