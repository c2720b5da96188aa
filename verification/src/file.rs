//! What the path of a file and the file system tell of it, in one step
//! that gives up at the first failure.

use crate::error::{ApplicationError, ApplicationErrorView};
use crate::extension::{extension_of, lookup_suffix, Extension};
use crate::path::{file_name, file_name_of, suffix, suffix_of};
use crate::text::{chars_of, lowercase, outcome_view, string_of, to_lowercase};
use vstd::prelude::*;

verus! {

#[derive(Clone, Debug, Default, PartialEq, Eq)]
pub struct FileDetails {
    pub path: String,
    /// The file name.
    pub title: String,
    /// The format that the suffix of the file name declares.
    pub extension: Extension,
    /// The size in bytes that the file system reports.
    pub content_length: u64,
}

/// The mathematical content of `FileDetails`.
pub struct FileDetailsView {
    pub path: Seq<char>,
    pub title: Seq<char>,
    pub extension: Extension,
    pub content_length: u64,
}

impl View for FileDetails {
    type V = FileDetailsView;

    open spec fn view(&self) -> FileDetailsView {
        FileDetailsView {
            path: self.path@,
            title: self.title@,
            extension: self.extension,
            content_length: self.content_length,
        }
    }
}

/// The file name of `path`, or a `NoFileName` error.
pub open spec fn title_of(path: Seq<char>) -> Result<Seq<char>, ApplicationErrorView> {
    match file_name(path) {
        Some(name) => Ok(name),
        None => Err(ApplicationErrorView::NoFileName(path, "No file name detected"@)),
    }
}

/// The format that the suffix of the file name declares; an
/// `UnknownFileType` error where there is no suffix, an
/// `UnsupportedFileType` error where the suffix stands for no known format.
pub open spec fn extension_of_path(path: Seq<char>) -> Result<Extension, ApplicationErrorView> {
    match suffix(path) {
        None => Err(ApplicationErrorView::UnknownFileType(path, "Unknown file extension"@)),
        Some(s) => if extension_of(lowercase(s)) != Extension::UNKNOWN {
            Ok(extension_of(lowercase(s)))
        } else {
            Err(ApplicationErrorView::UnsupportedFileType(path, "Unsupported file extension"@))
        },
    }
}

/// The size that the file system reported, or an `IOError` with the
/// message of its failure.
pub open spec fn content_length_of(path: Seq<char>, size: Result<u64, Seq<char>>) -> Result<
    u64,
    ApplicationErrorView,
> {
    match size {
        Ok(n) => Ok(n),
        Err(message) => Err(ApplicationErrorView::IOError(path, message)),
    }
}

/// The details of the file at `path`, or the first error met: the title is
/// looked for first, then the declared format, then the size.
pub open spec fn file_details_of(path: Seq<char>, size: Result<u64, Seq<char>>) -> Result<
    FileDetailsView,
    ApplicationErrorView,
> {
    match title_of(path) {
        Err(e) => Err(e),
        Ok(title) => match extension_of_path(path) {
            Err(e) => Err(e),
            Ok(extension) => match content_length_of(path, size) {
                Err(e) => Err(e),
                Ok(content_length) => Ok(
                    FileDetailsView {
                        path: path,
                        title: title,
                        extension: extension,
                        content_length: content_length,
                    },
                ),
            },
        },
    }
}

/// The mathematical content of a result of these parsers.
pub open spec fn result_view<T: View>(r: Result<T, ApplicationError>) -> Result<
    T::V,
    ApplicationErrorView,
> {
    match r {
        Ok(v) => Ok(v@),
        Err(e) => Err(e@),
    }
}

/// The mathematical content of a result whose value is its own content.
pub open spec fn plain_result_view<T>(r: Result<T, ApplicationError>) -> Result<
    T,
    ApplicationErrorView,
> {
    match r {
        Ok(v) => Ok(v),
        Err(e) => Err(e@),
    }
}

pub fn parse_title(path: &str) -> (r: Result<String, ApplicationError>)
    ensures
        result_view(r) == title_of(path@),
{
    let chars = chars_of(path);
    match file_name_of(chars.as_slice()) {
        Some(name) => Ok(string_of(name.as_slice())),
        None => Err(
            ApplicationError::NoFileName(path.to_owned(), "No file name detected".to_owned()),
        ),
    }
}

pub fn parse_extension(path: &str) -> (r: Result<Extension, ApplicationError>)
    ensures
        plain_result_view(r) == extension_of_path(path@),
{
    let chars = chars_of(path);
    let found = match file_name_of(chars.as_slice()) {
        Some(name) => suffix_of(name.as_slice()),
        None => None,
    };
    match found {
        None => Err(
            ApplicationError::UnknownFileType(path.to_owned(), "Unknown file extension".to_owned()),
        ),
        Some(s) => {
            let lower = to_lowercase(s.as_slice());
            let extension = lookup_suffix(lower.as_slice());
            if extension != Extension::UNKNOWN {
                Ok(extension)
            } else {
                Err(
                    ApplicationError::UnsupportedFileType(
                        path.to_owned(),
                        "Unsupported file extension".to_owned(),
                    ),
                )
            }
        },
    }
}

pub fn parse_fs_content_length(path: &str, size: &Result<u64, String>) -> (r: Result<
    u64,
    ApplicationError,
>)
    ensures
        plain_result_view(r) == content_length_of(path@, outcome_view(*size)),
{
    match size {
        Ok(n) => Ok(*n),
        Err(message) => Err(ApplicationError::IOError(path.to_owned(), message.clone())),
    }
}

/// The details of the file at `path`, from the path and from the size that
/// the file system reported for it, or the first error met.
pub fn parse_file_details(path: &str, size: &Result<u64, String>) -> (r: Result<
    FileDetails,
    ApplicationError,
>)
    ensures
        result_view(r) == file_details_of(path@, outcome_view(*size)),
{
    let title = match parse_title(path) {
        Ok(title) => title,
        Err(e) => {
            return Err(e);
        },
    };
    let extension = match parse_extension(path) {
        Ok(extension) => extension,
        Err(e) => {
            return Err(e);
        },
    };
    let content_length = match parse_fs_content_length(path, size) {
        Ok(content_length) => content_length,
        Err(e) => {
            return Err(e);
        },
    };
    Ok(FileDetails { path: path.to_owned(), title, extension, content_length })
}

} // verus!
