//! The errors of the single-step parsers, each with the path of the file it
//! concerns and a message.

use vstd::prelude::*;

verus! {

#[derive(Clone, Debug, PartialEq, Eq)]
pub enum ApplicationError {
    /// The suffix of the file name stands for no known format.
    UnsupportedFileType(String, String),
    /// The file name has no suffix.
    UnknownFileType(String, String),
    /// The decoder could not make out the content.
    LibraryParseError(String, String),
    /// The EXIF data could not be read.
    ExifParseError(String, String),
    /// The path has no file name.
    NoFileName(String, String),
    /// The file system could not be read.
    IOError(String, String),
}

/// The mathematical content of an `ApplicationError`.
pub enum ApplicationErrorView {
    UnsupportedFileType(Seq<char>, Seq<char>),
    UnknownFileType(Seq<char>, Seq<char>),
    LibraryParseError(Seq<char>, Seq<char>),
    ExifParseError(Seq<char>, Seq<char>),
    NoFileName(Seq<char>, Seq<char>),
    IOError(Seq<char>, Seq<char>),
}

impl View for ApplicationError {
    type V = ApplicationErrorView;

    open spec fn view(&self) -> ApplicationErrorView {
        match self {
            ApplicationError::UnsupportedFileType(
                path,
                message,
            ) => ApplicationErrorView::UnsupportedFileType(path@, message@),
            ApplicationError::UnknownFileType(
                path,
                message,
            ) => ApplicationErrorView::UnknownFileType(path@, message@),
            ApplicationError::LibraryParseError(
                path,
                message,
            ) => ApplicationErrorView::LibraryParseError(path@, message@),
            ApplicationError::ExifParseError(path, message) => ApplicationErrorView::ExifParseError(
                path@,
                message@,
            ),
            ApplicationError::NoFileName(path, message) => ApplicationErrorView::NoFileName(
                path@,
                message@,
            ),
            ApplicationError::IOError(path, message) => ApplicationErrorView::IOError(
                path@,
                message@,
            ),
        }
    }
}

} // verus!
