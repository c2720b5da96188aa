//! The scan of a directory in two passes. The shallow pass makes a record
//! for each file from its path and size alone; the deep pass adds what the
//! content tells: the actual format, the pixel dimensions and the digest.
//! A step that fails for a file leaves an error in the file's record and
//! stops nothing else.

use crate::decode::{
    decode_image_size, decode_image_type, decoded_image_size, decoded_image_type,
    dimension_in_range, extension_of_format, format_extension, narrow_dimension, ImageFormat,
    SNIFF_PREFIX_LEN,
};
use crate::digest::{content_hash, generate_md5, DIGEST_LEN};
use crate::directory::{entries_view, paths_view, regular_file_paths, regular_files, DirEntry};
use crate::extension::{extension_of, lookup_suffix, Extension};
use crate::lookup::{indexed, BucketView, DuplicateIndex};
use crate::path::{file_name, file_name_of, suffix, suffix_of};
use crate::text::{chars_of, lowercase, outcome_view, string_of, to_lowercase};
use vstd::prelude::*;
use vstd::slice::slice_subrange;

verus! {

/// The kinds of failure that a scan can meet.
#[derive(Clone, Copy, Debug, PartialEq, Eq, Structural, Hash)]
pub enum ErrorKind {
    /// The directory is missing, is no directory or cannot be read.
    DirectoryAccess,
    /// The size or the bytes of a file could not be read.
    Io,
    /// The path has no file name.
    NoFileName,
    /// The name has no suffix, or one that stands for no known format.
    UnsupportedOrUnknownType,
    /// The content could not be classified.
    ContentParse,
    /// The content is an image whose dimensions could not be decoded.
    DimensionParse,
    /// The content could not be read to its end, so it has no digest.
    Hash,
}

/// A failure, with the path it concerns and a message. Only
/// `FileDoesNotExist` ends a scan; the others are kept in the record of
/// the file they concern.
#[derive(Clone, Debug, PartialEq, Eq)]
pub enum FileParseError {
    /// The directory could not be listed.
    FileDoesNotExist(String, String),
    /// The decoder could not classify the content of the file.
    ParseError(String, String),
    /// The decoder could not read the dimensions of the image.
    DimensionParseError(String, String),
    /// A diagnostic of the decoder that is not yet tied to a file.
    LibraryParseError { message: String },
    /// The path has no file name.
    NoFileName(String, String),
    /// The file name has no suffix, or one that stands for no known format.
    UnknownFileType(String, String),
    /// The content could not be read to its end, so it has no digest.
    HashError(String, String),
    /// The size of the file or its leading bytes could not be read.
    IOError(String, String),
}

/// The mathematical content of a `FileParseError`.
pub enum FileParseErrorView {
    FileDoesNotExist(Seq<char>, Seq<char>),
    ParseError(Seq<char>, Seq<char>),
    DimensionParseError(Seq<char>, Seq<char>),
    LibraryParseError { message: Seq<char> },
    NoFileName(Seq<char>, Seq<char>),
    UnknownFileType(Seq<char>, Seq<char>),
    HashError(Seq<char>, Seq<char>),
    IOError(Seq<char>, Seq<char>),
}

impl View for FileParseError {
    type V = FileParseErrorView;

    open spec fn view(&self) -> FileParseErrorView {
        match self {
            FileParseError::FileDoesNotExist(path, message) => FileParseErrorView::FileDoesNotExist(
                path@,
                message@,
            ),
            FileParseError::ParseError(path, message) => FileParseErrorView::ParseError(
                path@,
                message@,
            ),
            FileParseError::DimensionParseError(
                path,
                message,
            ) => FileParseErrorView::DimensionParseError(path@, message@),
            FileParseError::LibraryParseError { message } => FileParseErrorView::LibraryParseError {
                message: message@,
            },
            FileParseError::NoFileName(path, message) => FileParseErrorView::NoFileName(
                path@,
                message@,
            ),
            FileParseError::UnknownFileType(path, message) => FileParseErrorView::UnknownFileType(
                path@,
                message@,
            ),
            FileParseError::HashError(path, message) => FileParseErrorView::HashError(
                path@,
                message@,
            ),
            FileParseError::IOError(path, message) => FileParseErrorView::IOError(path@, message@),
        }
    }
}

impl FileParseErrorView {
    /// The kind of failure that the error stands for. A decoder's
    /// diagnostic that is not yet tied to a path counts as a failure to
    /// classify content.
    pub open spec fn kind(self) -> ErrorKind {
        match self {
            FileParseErrorView::FileDoesNotExist(..) => ErrorKind::DirectoryAccess,
            FileParseErrorView::ParseError(..) => ErrorKind::ContentParse,
            FileParseErrorView::DimensionParseError(..) => ErrorKind::DimensionParse,
            FileParseErrorView::LibraryParseError { .. } => ErrorKind::ContentParse,
            FileParseErrorView::NoFileName(..) => ErrorKind::NoFileName,
            FileParseErrorView::UnknownFileType(..) => ErrorKind::UnsupportedOrUnknownType,
            FileParseErrorView::HashError(..) => ErrorKind::Hash,
            FileParseErrorView::IOError(..) => ErrorKind::Io,
        }
    }
}

impl FileParseError {
    /// The kind of failure that the error stands for.
    pub fn kind(&self) -> (r: ErrorKind)
        ensures
            r == self@.kind(),
    {
        match self {
            FileParseError::FileDoesNotExist(..) => ErrorKind::DirectoryAccess,
            FileParseError::ParseError(..) => ErrorKind::ContentParse,
            FileParseError::DimensionParseError(..) => ErrorKind::DimensionParse,
            FileParseError::LibraryParseError { .. } => ErrorKind::ContentParse,
            FileParseError::NoFileName(..) => ErrorKind::NoFileName,
            FileParseError::UnknownFileType(..) => ErrorKind::UnsupportedOrUnknownType,
            FileParseError::HashError(..) => ErrorKind::Hash,
            FileParseError::IOError(..) => ErrorKind::Io,
        }
    }
}

/// The record of one file.
#[derive(Clone, Debug, PartialEq, Eq)]
pub struct Metadata {
    /// The path of the file, as the enumeration gave it.
    pub path: String,
    /// The file name; empty where the path has none.
    pub title: String,
    /// The format that the suffix of the name declares.
    pub advertised_extension: Extension,
    /// The size in bytes that the file system reports; 0 where it reports none.
    pub content_length: u64,
    /// The failures met for this file, in the order in which they were met.
    pub errors: Vec<FileParseError>,
    /// The digest of the content; empty until the content was read to its end.
    pub md5: String,
    /// The format that the content shows.
    pub parsed_extension: Extension,
    /// The width in pixels; 0 until it is decoded.
    pub width: u32,
    /// The height in pixels; 0 until it is decoded.
    pub height: u32,
}

/// The mathematical content of a record.
pub struct MetadataView {
    pub path: Seq<char>,
    pub title: Seq<char>,
    pub advertised_extension: Extension,
    pub content_length: u64,
    pub errors: Seq<FileParseErrorView>,
    pub md5: Seq<char>,
    pub parsed_extension: Extension,
    pub width: u32,
    pub height: u32,
}

impl View for Metadata {
    type V = MetadataView;

    open spec fn view(&self) -> MetadataView {
        MetadataView {
            path: self.path@,
            title: self.title@,
            advertised_extension: self.advertised_extension,
            content_length: self.content_length,
            errors: self.errors@.map_values(|e: FileParseError| e@),
            md5: self.md5@,
            parsed_extension: self.parsed_extension,
            width: self.width,
            height: self.height,
        }
    }
}

/// The mathematical content of a result that may hold an error of a scan.
pub open spec fn parsed_view<T>(r: Result<T, FileParseError>) -> Result<T, FileParseErrorView> {
    match r {
        Ok(v) => Ok(v),
        Err(e) => Err(e@),
    }
}

impl MetadataView {
    /// The record of `path` before anything is known of the file.
    pub open spec fn fresh(path: Seq<char>) -> MetadataView {
        MetadataView {
            path: path,
            title: Seq::empty(),
            advertised_extension: Extension::UNKNOWN,
            content_length: 0,
            errors: Seq::empty(),
            md5: Seq::empty(),
            parsed_extension: Extension::UNKNOWN,
            width: 0,
            height: 0,
        }
    }

    /// The record with one more error at the end of its errors.
    pub open spec fn with_error(self, error: FileParseErrorView) -> MetadataView {
        MetadataView { errors: self.errors.push(error), ..self }
    }

    /// The record after the size of the file was asked for.
    pub open spec fn with_size(self, size: Result<u64, FileParseErrorView>) -> MetadataView {
        match size {
            Ok(n) => MetadataView { content_length: n, ..self },
            Err(e) => self.with_error(e),
        }
    }

    /// The record after the file name was looked for.
    pub open spec fn with_title(
        self,
        title: Result<Seq<char>, FileParseErrorView>,
    ) -> MetadataView {
        match title {
            Ok(name) => MetadataView { title: name, ..self },
            Err(e) => self.with_error(e),
        }
    }

    /// The record after the declared format was looked for.
    pub open spec fn with_advertised(
        self,
        extension: Result<Extension, FileParseErrorView>,
    ) -> MetadataView {
        match extension {
            Ok(e) => MetadataView { advertised_extension: e, ..self },
            Err(e) => self.with_error(e),
        }
    }
}

/// What the size report of the file system means for the file at `path`:
/// the size, or an `IOError` with the message of the report.
pub open spec fn content_length_of(path: Seq<char>, size: Result<u64, Seq<char>>) -> Result<
    u64,
    FileParseErrorView,
> {
    match size {
        Ok(n) => Ok(n),
        Err(message) => Err(FileParseErrorView::IOError(path, message)),
    }
}

/// The title of the file at `path`: its file name, or a `NoFileName` error
/// where the path has none.
pub open spec fn title_of(path: Seq<char>) -> Result<Seq<char>, FileParseErrorView> {
    match file_name(path) {
        Some(name) => Ok(name),
        None => Err(FileParseErrorView::NoFileName(path, "No file name"@)),
    }
}

/// The format that the name of the file at `path` declares, or an
/// `UnknownFileType` error where the name has no suffix or one that the
/// table of suffixes does not hold.
pub open spec fn advertised_extension_of(path: Seq<char>) -> Result<Extension, FileParseErrorView> {
    match suffix(path) {
        Some(s) => if extension_of(lowercase(s)) != Extension::UNKNOWN {
            Ok(extension_of(lowercase(s)))
        } else {
            Err(FileParseErrorView::UnknownFileType(path, "Unknown file extension"@))
        },
        None => Err(FileParseErrorView::UnknownFileType(path, "No file extension"@)),
    }
}

/// The record that the shallow pass makes of a path and of the size that
/// the file system reported for it. The three steps do not depend on each
/// other: each sets its field or leaves its error.
pub open spec fn shallow_parsed(path: Seq<char>, size: Result<u64, Seq<char>>) -> MetadataView {
    MetadataView::fresh(path).with_size(content_length_of(path, size)).with_title(
        title_of(path),
    ).with_advertised(advertised_extension_of(path))
}

/// The size of the file at `path` as the file system reported it.
pub fn parse_fs_content_length(path: &str, size: &Result<u64, String>) -> (r: Result<
    u64,
    FileParseError,
>)
    ensures
        parsed_view(r) == content_length_of(path@, outcome_view(*size)),
{
    match size {
        Ok(n) => Ok(*n),
        Err(message) => Err(FileParseError::IOError(path.to_owned(), message.clone())),
    }
}

/// The file name of `path`.
pub fn parse_title(path: &str) -> (r: Result<String, FileParseError>)
    ensures
        match r {
            Ok(title) => title_of(path@) == Ok::<Seq<char>, FileParseErrorView>(title@),
            Err(e) => title_of(path@) == Err::<Seq<char>, FileParseErrorView>(e@),
        },
{
    let chars = chars_of(path);
    match file_name_of(chars.as_slice()) {
        Some(name) => Ok(string_of(name.as_slice())),
        None => Err(FileParseError::NoFileName(path.to_owned(), "No file name".to_owned())),
    }
}

/// The format that the suffix of the file name of `path` declares.
pub fn parse_extension(path: &str) -> (r: Result<Extension, FileParseError>)
    ensures
        parsed_view(r) == advertised_extension_of(path@),
{
    let chars = chars_of(path);
    let found = match file_name_of(chars.as_slice()) {
        Some(name) => suffix_of(name.as_slice()),
        None => None,
    };
    match found {
        Some(s) => {
            let lower = to_lowercase(s.as_slice());
            let extension = lookup_suffix(lower.as_slice());
            if extension != Extension::UNKNOWN {
                Ok(extension)
            } else {
                Err(
                    FileParseError::UnknownFileType(
                        path.to_owned(),
                        "Unknown file extension".to_owned(),
                    ),
                )
            }
        },
        None => Err(
            FileParseError::UnknownFileType(path.to_owned(), "No file extension".to_owned()),
        ),
    }
}

impl Metadata {
    /// The record of `path` before anything is known of the file.
    pub fn new(path: &str) -> (r: Metadata)
        ensures
            r@ == MetadataView::fresh(path@),
    {
        let r = Metadata {
            path: path.to_owned(),
            title: String::new(),
            advertised_extension: Extension::UNKNOWN,
            content_length: 0,
            errors: Vec::new(),
            md5: String::new(),
            parsed_extension: Extension::UNKNOWN,
            width: 0,
            height: 0,
        };
        assert(r@.errors =~= Seq::empty());
        r
    }

    /// Puts `error` at the end of the errors of the record.
    pub fn add_error(&mut self, error: FileParseError)
        ensures
            final(self)@ == old(self)@.with_error(error@),
    {
        self.errors.push(error);
        assert(final(self)@.errors =~= old(self)@.errors.push(error@));
    }
}

/// The record of the file at `path`, from the path and from the size that
/// the file system reported for it.
pub fn shallow_parse(path: &str, size: &Result<u64, String>) -> (r: Metadata)
    ensures
        r@ == shallow_parsed(path@, outcome_view(*size)),
{
    let mut metadata = Metadata::new(path);
    match parse_fs_content_length(path, size) {
        Ok(content_length) => metadata.content_length = content_length,
        Err(e) => metadata.add_error(e),
    }
    match parse_title(path) {
        Ok(title) => metadata.title = title,
        Err(e) => metadata.add_error(e),
    }
    match parse_extension(path) {
        Ok(extension) => metadata.advertised_extension = extension,
        Err(e) => metadata.add_error(e),
    }
    metadata
}

/// What was read of the content of one file: the bytes that came, from
/// the first on, and the failure that cut the reading short, if one did.
#[derive(Clone, Debug, PartialEq, Eq)]
pub struct FileRead {
    pub bytes: Vec<u8>,
    pub failure: Option<String>,
}

/// The mathematical content of a `FileRead`.
pub struct FileReadView {
    pub bytes: Seq<u8>,
    pub failure: Option<Seq<char>>,
}

impl View for FileRead {
    type V = FileReadView;

    open spec fn view(&self) -> FileReadView {
        FileReadView {
            bytes: self.bytes@,
            failure: match self.failure {
                Some(message) => Some(message@),
                None => None,
            },
        }
    }
}

impl FileRead {
    /// Whether enough was read to show the leading bytes to the decoder.
    pub fn prefix_was_read(&self) -> (r: bool)
        ensures
            r == prefix_was_read(self@),
    {
        self.failure.is_none() || self.bytes.len() >= SNIFF_PREFIX_LEN
    }
}

/// The bytes that the decoder is shown: the first `SNIFF_PREFIX_LEN` of
/// them, or all where there are fewer.
pub open spec fn sniff_prefix(bytes: Seq<u8>) -> Seq<u8> {
    if bytes.len() <= SNIFF_PREFIX_LEN {
        bytes
    } else {
        bytes.take(SNIFF_PREFIX_LEN as int)
    }
}

/// What the decoder's answer on the format means: the format, or a
/// `LibraryParseError` with the decoder's diagnostic.
pub open spec fn file_type_of(decoded: Result<ImageFormat, Seq<char>>) -> Result<
    Extension,
    FileParseErrorView,
> {
    match decoded {
        Ok(format) => Ok(extension_of_format(format)),
        Err(message) => Err(FileParseErrorView::LibraryParseError { message: message }),
    }
}

/// What the decoder's answer on the dimensions means: width and height
/// where both fit the fields of a record, else a `LibraryParseError` with
/// the diagnostic.
pub open spec fn dimension_of(decoded: Result<(usize, usize), Seq<char>>) -> Result<
    (u32, u32),
    FileParseErrorView,
> {
    match dimension_in_range(decoded) {
        Ok(size) => Ok(size),
        Err(message) => Err(FileParseErrorView::LibraryParseError { message: message }),
    }
}

/// A decoder's diagnostic met while classifying the content of the file at
/// `path`, as a `ParseError` of that file; any other error as it is.
pub open spec fn convert_library_error(
    error: FileParseErrorView,
    path: Seq<char>,
) -> FileParseErrorView {
    match error {
        FileParseErrorView::LibraryParseError { message } => FileParseErrorView::ParseError(
            path,
            message,
        ),
        _ => error,
    }
}

/// A decoder's diagnostic met while decoding the dimensions of the file at
/// `path`, as a `DimensionParseError` of that file; any other error as it is.
pub open spec fn convert_dimension_error(
    error: FileParseErrorView,
    path: Seq<char>,
) -> FileParseErrorView {
    match error {
        FileParseErrorView::LibraryParseError {
            message,
        } => FileParseErrorView::DimensionParseError(path, message),
        _ => error,
    }
}

impl MetadataView {
    /// The record after the content was classified: the format found, or
    /// `UNKNOWN` and the error of the attempt.
    pub open spec fn with_file_type(
        self,
        parsed: Result<Extension, FileParseErrorView>,
    ) -> MetadataView {
        match parsed {
            Ok(extension) => MetadataView { parsed_extension: extension, ..self },
            Err(e) => MetadataView { parsed_extension: Extension::UNKNOWN, ..self }.with_error(
                convert_library_error(e, self.path),
            ),
        }
    }

    /// The record after the dimensions were decoded: width and height, or
    /// the error of the attempt.
    pub open spec fn with_dimension(
        self,
        parsed: Result<(u32, u32), FileParseErrorView>,
    ) -> MetadataView {
        match parsed {
            Ok((width, height)) => MetadataView { width: width, height: height, ..self },
            Err(e) => self.with_error(convert_dimension_error(e, self.path)),
        }
    }

    /// The record after its content was hashed: with the digest where there
    /// is one, else without a digest and with a `HashError` that holds the
    /// message of the failure.
    pub open spec fn with_md5(self, hash: Result<Seq<char>, Seq<char>>) -> MetadataView {
        match hash {
            Ok(digest) => MetadataView { md5: digest, ..self },
            Err(message) => MetadataView { md5: Seq::empty(), ..self }.with_error(
                FileParseErrorView::HashError(self.path, message),
            ),
        }
    }

    /// The record of a file of which not even the bytes for the decoder
    /// could be read: without a digest and with an `IOError` that holds the
    /// message of the failure.
    pub open spec fn unread(self, message: Seq<char>) -> MetadataView {
        MetadataView { md5: Seq::empty(), ..self }.with_error(
            FileParseErrorView::IOError(self.path, message),
        )
    }

    /// The record after the decoder answered on the format and on the
    /// dimensions of the content. The dimensions count only where the
    /// format was recognised and is one of still images.
    pub open spec fn with_decoded(
        self,
        format: Result<ImageFormat, Seq<char>>,
        size: Result<(usize, usize), Seq<char>>,
    ) -> MetadataView {
        if has_dimensions(file_type_of(format)) {
            self.with_file_type(file_type_of(format)).with_dimension(dimension_of(size))
        } else {
            self.with_file_type(file_type_of(format))
        }
    }
}

/// Whether the content has dimensions to decode: its format was
/// recognised and is one of still images.
pub open spec fn has_dimensions(parsed: Result<Extension, FileParseErrorView>) -> bool {
    parsed matches Ok(extension) && extension.is_image()
}

/// Whether enough was read of a file to show its leading bytes to the
/// decoder: all of it, or at least `SNIFF_PREFIX_LEN` bytes.
pub open spec fn prefix_was_read(read: FileReadView) -> bool {
    read.failure is None || read.bytes.len() >= SNIFF_PREFIX_LEN
}

/// The digest of what was read of a file: the digest of all its bytes
/// where the reading came to the end, else the message of the failure.
pub open spec fn hash_of(read: FileReadView) -> Result<Seq<char>, Seq<char>> {
    match read.failure {
        None => Ok(content_hash(read.bytes)),
        Some(message) => Err(message),
    }
}

/// The record after the deep pass over what was read of the file. Where
/// the leading bytes are there, the decoder classifies them and the whole
/// content is hashed; a reading that failed later costs the digest only.
pub open spec fn deep_parsed(record: MetadataView, read: FileReadView) -> MetadataView {
    if prefix_was_read(read) {
        record.with_decoded(
            decoded_image_type(sniff_prefix(read.bytes)),
            decoded_image_size(sniff_prefix(read.bytes)),
        ).with_md5(hash_of(read))
    } else {
        record.unread(read.failure->0)
    }
}

/// The leading bytes of `bytes` that the decoder is shown.
pub fn parse_first_n_bytes(bytes: &[u8]) -> (r: &[u8])
    ensures
        r@ == sniff_prefix(bytes@),
{
    if bytes.len() <= SNIFF_PREFIX_LEN {
        bytes
    } else {
        slice_subrange(bytes, 0, SNIFF_PREFIX_LEN)
    }
}

/// What the decoder's answer on the format means.
pub fn file_type_from_decoded(decoded: Result<ImageFormat, String>) -> (r: Result<
    Extension,
    FileParseError,
>)
    ensures
        parsed_view(r) == file_type_of(outcome_view(decoded)),
{
    match decoded {
        Ok(format) => Ok(format_extension(format)),
        Err(message) => Err(FileParseError::LibraryParseError { message }),
    }
}

/// What the decoder's answer on the dimensions means.
pub fn dimension_from_decoded(decoded: Result<(usize, usize), String>) -> (r: Result<
    (u32, u32),
    FileParseError,
>)
    ensures
        parsed_view(r) == dimension_of(outcome_view(decoded)),
{
    match narrow_dimension(decoded) {
        Ok(size) => Ok(size),
        Err(message) => Err(FileParseError::LibraryParseError { message }),
    }
}

/// The format that the leading bytes of `bytes` show.
pub fn parse_file_type_from_bytes(bytes: &[u8]) -> (r: Result<Extension, FileParseError>)
    ensures
        parsed_view(r) == file_type_of(decoded_image_type(sniff_prefix(bytes@))),
{
    file_type_from_decoded(decode_image_type(parse_first_n_bytes(bytes)))
}

/// The width and height that the leading bytes of `bytes` hold. The
/// decoder behind it is written for machines whose `usize` has 64 bits.
pub fn parse_dimension_from_bytes(bytes: &[u8]) -> (r: Result<(u32, u32), FileParseError>)
    requires
        usize::BITS == 64,
    ensures
        parsed_view(r) == dimension_of(decoded_image_size(sniff_prefix(bytes@))),
{
    dimension_from_decoded(decode_image_size(parse_first_n_bytes(bytes)))
}

/// Whether the content has dimensions to decode.
pub fn wants_dimensions(parsed: &Result<Extension, FileParseError>) -> (r: bool)
    ensures
        r == has_dimensions(parsed_view(*parsed)),
{
    match parsed {
        Ok(extension) => extension.has_dimensions(),
        Err(_) => false,
    }
}

/// Ties a decoder's diagnostic on the format to the file at `path`.
pub fn convert_library_error_to_file_parse_error(err: FileParseError, path: &str) -> (r:
    FileParseError)
    ensures
        r@ == convert_library_error(err@, path@),
{
    match err {
        FileParseError::LibraryParseError { message } => FileParseError::ParseError(
            path.to_owned(),
            message,
        ),
        other => other,
    }
}

/// Ties a decoder's diagnostic on the dimensions to the file at `path`.
pub fn convert_library_error_to_dimension_parse_error(err: FileParseError, path: &str) -> (r:
    FileParseError)
    ensures
        r@ == convert_dimension_error(err@, path@),
{
    match err {
        FileParseError::LibraryParseError { message } => FileParseError::DimensionParseError(
            path.to_owned(),
            message,
        ),
        other => other,
    }
}

impl Metadata {
    /// Records what classifying the content gave.
    pub fn set_file_type(&mut self, parsed: Result<Extension, FileParseError>)
        ensures
            final(self)@ == old(self)@.with_file_type(parsed_view(parsed)),
    {
        match parsed {
            Ok(extension) => self.parsed_extension = extension,
            Err(e) => {
                self.parsed_extension = Extension::UNKNOWN;
                let error = convert_library_error_to_file_parse_error(e, self.path.as_str());
                self.add_error(error);
            },
        }
    }

    /// Records what decoding the dimensions gave.
    pub fn set_dimension(&mut self, parsed: Result<(u32, u32), FileParseError>)
        ensures
            final(self)@ == old(self)@.with_dimension(parsed_view(parsed)),
    {
        match parsed {
            Ok((width, height)) => {
                self.width = width;
                self.height = height;
            },
            Err(e) => {
                let error = convert_library_error_to_dimension_parse_error(e, self.path.as_str());
                self.add_error(error);
            },
        }
    }

    /// Records the digest of the content, or that a failure to read the
    /// content to its end left the record without one.
    pub fn set_md5(&mut self, hash: Result<String, String>)
        ensures
            final(self)@ == old(self)@.with_md5(
                match hash {
                    Ok(digest) => Ok(digest@),
                    Err(message) => Err(message@),
                },
            ),
    {
        match hash {
            Ok(digest) => self.md5 = digest,
            Err(message) => {
                self.md5 = String::new();
                let error = FileParseError::HashError(self.path.clone(), message);
                self.add_error(error);
            },
        }
    }
}

/// The deep pass over one record: what was read of the file is classified,
/// measured and hashed, and each step that fails leaves its error in the
/// record.
pub fn deep_parse(metadata: &mut Metadata, read: &FileRead)
    requires
        usize::BITS == 64,
    ensures
        final(metadata)@ == deep_parsed(old(metadata)@, read@),
        read.failure is None ==> final(metadata)@.md5.len() == 2 * DIGEST_LEN,
{
    if read.prefix_was_read() {
        let prefix = parse_first_n_bytes(read.bytes.as_slice());
        let file_type = file_type_from_decoded(decode_image_type(prefix));
        let measured = wants_dimensions(&file_type);
        metadata.set_file_type(file_type);
        if measured {
            metadata.set_dimension(dimension_from_decoded(decode_image_size(prefix)));
        }
        let hash = match &read.failure {
            None => Ok(generate_md5(read.bytes.as_slice())),
            Some(message) => Err(message.clone()),
        };
        metadata.set_md5(hash);
    } else {
        match &read.failure {
            Some(message) => {
                metadata.md5 = String::new();
                let error = FileParseError::IOError(metadata.path.clone(), message.clone());
                metadata.add_error(error);
            },
            None => {},
        }
    }
}

/// The mathematical content of a list of records.
pub open spec fn records_view(records: Seq<Metadata>) -> Seq<MetadataView> {
    records.map_values(|m: Metadata| m@)
}

/// The digests of the records, empty where a record has none.
pub open spec fn hashes(records: Seq<MetadataView>) -> Seq<Seq<char>> {
    records.map_values(|m: MetadataView| m.md5)
}

/// The files to scan: the regular files among the entries of a directory
/// that could be listed, or the message of the failure to list it.
pub fn verify_dir(listing: Result<Vec<DirEntry>, String>) -> (r: Result<Vec<String>, String>)
    ensures
        match listing {
            Ok(entries) => r is Ok && paths_view(r->Ok_0@) == regular_files(entries_view(entries@)),
            Err(message) => r is Err && r->Err_0@ == message@,
        },
{
    match listing {
        Ok(entries) => Ok(regular_file_paths(&entries)),
        Err(message) => Err(message),
    }
}

/// A directory under scan: its path, the files found in it, their records
/// and the index of duplicates among the records.
pub struct Location {
    root: String,
    paths: Vec<String>,
    metadata: Vec<Metadata>,
    lookup: DuplicateIndex,
}

/// The mathematical content of a `Location`. The index of duplicates is no
/// part of it: it is a function of the records.
pub struct LocationView {
    pub root: Seq<char>,
    pub paths: Seq<Seq<char>>,
    pub metadata: Seq<MetadataView>,
}

impl LocationView {
    /// The index of duplicates among the records.
    pub open spec fn lookup(self) -> Seq<BucketView> {
        indexed(hashes(self.metadata))
    }
}

impl Location {
    /// The index is the index of the digests of the records.
    #[verifier::type_invariant]
    spec fn lookup_indexes_metadata(self) -> bool {
        self.lookup@ == indexed(hashes(records_view(self.metadata@)))
    }

    pub closed spec fn view(&self) -> LocationView {
        LocationView {
            root: self.root@,
            paths: paths_view(self.paths@),
            metadata: records_view(self.metadata@),
        }
    }

    fn empty() -> (r: Location)
        ensures
            r@ == (LocationView {
                root: Seq::empty(),
                paths: Seq::empty(),
                metadata: Seq::empty(),
            }),
    {
        let r = Location {
            root: String::new(),
            paths: Vec::new(),
            metadata: Vec::new(),
            lookup: DuplicateIndex::new(),
        };
        assert(r@.paths =~= Seq::empty());
        assert(r@.metadata =~= Seq::empty());
        r
    }

    /// The path of the directory.
    pub fn root(&self) -> (r: &String)
        ensures
            r@ == self@.root,
    {
        &self.root
    }

    /// The paths of the files found in the directory.
    pub fn paths(&self) -> (r: &Vec<String>)
        ensures
            paths_view(r@) == self@.paths,
    {
        &self.paths
    }

    /// The records made so far, in the order of the paths.
    pub fn metadata(&self) -> (r: &Vec<Metadata>)
        ensures
            records_view(r@) == self@.metadata,
    {
        &self.metadata
    }

    /// Takes in one more record, so that a location can be filled file by
    /// file. The index takes the record in by its digest.
    pub fn add_record(&mut self, record: Metadata)
        ensures
            final(self)@ == (LocationView {
                metadata: old(self)@.metadata.push(record@),
                ..old(self)@
            }),
    {
        proof {
            use_type_invariant(&*self);
        }
        let mut taken = Location::empty();
        std::mem::swap(self, &mut taken);
        let Location { root, paths, mut metadata, mut lookup } = taken;
        let ghost before = records_view(metadata@);
        lookup.insert(record.md5.as_str(), metadata.len());
        metadata.push(record);
        proof {
            assert(records_view(metadata@) =~= before.push(record@));
            assert(hashes(before.push(record@)).drop_last() =~= hashes(before));
        }
        *self = Location { root, paths, metadata, lookup };
    }

    /// The index of duplicates among the records.
    pub fn lookup(&self) -> (r: &DuplicateIndex)
        ensures
            r@ == self@.lookup(),
    {
        proof {
            use_type_invariant(self);
        }
        &self.lookup
    }
}

/// Starts the scan of the directory at `root_string` from the listing of
/// its entries. A directory that could not be listed ends the scan with a
/// `FileDoesNotExist` error that holds the message of the failure; there is
/// then no location and no record.
pub fn add_location(root_string: String, listing: Result<Vec<DirEntry>, String>) -> (r: Result<
    Location,
    FileParseError,
>)
    ensures
        match listing {
            Ok(entries) => r is Ok && r->Ok_0@ == (LocationView {
                root: root_string@,
                paths: regular_files(entries_view(entries@)),
                metadata: Seq::empty(),
            }),
            Err(message) => r is Err && r->Err_0@ == FileParseErrorView::FileDoesNotExist(
                root_string@,
                message@,
            ),
        },
{
    match verify_dir(listing) {
        Ok(paths) => {
            let location = Location {
                root: root_string,
                paths,
                metadata: Vec::new(),
                lookup: DuplicateIndex::new(),
            };
            assert(location@.metadata =~= Seq::empty());
            Ok(location)
        },
        Err(e) => Err(FileParseError::FileDoesNotExist(root_string, e)),
    }
}

/// The records that the shallow pass makes of paths and of the sizes
/// reported for them, one for each path.
pub open spec fn shallow_records(paths: Seq<Seq<char>>, sizes: Seq<Result<u64, Seq<char>>>) -> Seq<
    MetadataView,
> {
    Seq::new(paths.len(), |i: int| shallow_parsed(paths[i], sizes[i]))
}

/// The mathematical content of a list of size reports.
pub open spec fn sizes_view(sizes: Seq<Result<u64, String>>) -> Seq<Result<u64, Seq<char>>> {
    sizes.map_values(|s: Result<u64, String>| outcome_view(s))
}

/// The mathematical content of a list of readings.
pub open spec fn reads_view(reads: Seq<FileRead>) -> Seq<FileReadView> {
    reads.map_values(|r: FileRead| r@)
}

/// The records after the deep pass, each with what was read of its file.
pub open spec fn deep_records(records: Seq<MetadataView>, reads: Seq<FileReadView>) -> Seq<
    MetadataView,
> {
    Seq::new(records.len(), |i: int| deep_parsed(records[i], reads[i]))
}

/// A record without a digest does not change the index.
pub proof fn lemma_indexed_without_digest(before: Seq<Seq<char>>, more: Seq<Seq<char>>)
    requires
        forall|i: int| 0 <= i < more.len() ==> (#[trigger] more[i]).len() == 0,
    ensures
        indexed(before + more) == indexed(before),
    decreases more.len(),
{
    if more.len() == 0 {
        assert(before + more =~= before);
    } else {
        lemma_indexed_without_digest(before, more.drop_last());
        assert((before + more).drop_last() =~= before + more.drop_last());
    }
}

/// The shallow pass: one record for each path of the location, in the
/// order of the paths, from the path and from the size reported for it.
/// `sizes` holds the reports in the order of the paths.
pub fn shallow_pass_location(location: Location, sizes: &Vec<Result<u64, String>>) -> (r: Location)
    requires
        sizes@.len() == location@.paths.len(),
    ensures
        r@.root == location@.root,
        r@.paths == location@.paths,
        r@.metadata == location@.metadata + shallow_records(location@.paths, sizes_view(sizes@)),
{
    proof {
        use_type_invariant(&location);
    }
    let ghost before = location@;
    let ghost added = shallow_records(before.paths, sizes_view(sizes@));
    let Location { root, paths, mut metadata, lookup } = location;
    let mut i: usize = 0;
    while i < paths.len()
        invariant
            i <= paths.len(),
            sizes@.len() == paths.len(),
            paths_view(paths@) == before.paths,
            added == shallow_records(before.paths, sizes_view(sizes@)),
            records_view(metadata@) == before.metadata + added.take(i as int),
        decreases paths.len() - i,
    {
        let record = shallow_parse(paths[i].as_str(), &sizes[i]);
        assert(record@ == added[i as int]);
        let ghost made = records_view(metadata@);
        metadata.push(record);
        i += 1;
        assert(made.push(record@) =~= before.metadata + added.take(i as int));
    }
    proof {
        assert(added.take(i as int) =~= added);
        assert(hashes(before.metadata + added) =~= hashes(before.metadata) + hashes(added));
        lemma_indexed_without_digest(hashes(before.metadata), hashes(added));
    }
    Location { root, paths, metadata, lookup }
}

/// The deep pass: each record of the location takes in what was read of
/// its file, and the index of duplicates is made anew from the digests.
/// `reads` holds the readings in the order of the records. A failure
/// stays in the record of its file and the pass goes on to the next.
pub fn deep_pass_location<'a>(location: &'a mut Location, reads: &Vec<FileRead>) -> (r:
    &'a mut Location)
    requires
        usize::BITS == 64,
        reads@.len() == old(location)@.metadata.len(),
    ensures
        *final(location) == *final(r),
        r@.root == old(location)@.root,
        r@.paths == old(location)@.paths,
        r@.metadata == deep_records(old(location)@.metadata, reads_view(reads@)),
        forall|i: int|
            0 <= i < reads@.len() && (#[trigger] reads@[i]).failure is None
                ==> r@.metadata[i].md5.len() == 2 * DIGEST_LEN,
{
    let ghost before = location@;
    let ghost after = deep_records(before.metadata, reads_view(reads@));
    let mut taken = Location::empty();
    std::mem::swap(location, &mut taken);
    let Location { root, paths, mut metadata, lookup: _ } = taken;
    let mut lookup = DuplicateIndex::new();
    let mut i: usize = 0;
    while i < metadata.len()
        invariant
            usize::BITS == 64,
            i <= metadata@.len(),
            metadata@.len() == reads@.len(),
            before.metadata.len() == reads@.len(),
            after == deep_records(before.metadata, reads_view(reads@)),
            forall|k: int| 0 <= k < i ==> (#[trigger] metadata@[k])@ == after[k],
            forall|k: int|
                i <= k < metadata@.len() ==> (#[trigger] metadata@[k])@ == before.metadata[k],
            forall|k: int|
                0 <= k < i && (#[trigger] reads@[k]).failure is None ==> metadata@[k]@.md5.len()
                    == 2 * DIGEST_LEN,
            lookup@ == indexed(hashes(after).take(i as int)),
        decreases metadata@.len() - i,
    {
        deep_parse(&mut metadata[i], &reads[i]);
        assert(metadata@[i as int]@ == after[i as int]);
        lookup.insert(metadata[i].md5.as_str(), i);
        proof {
            assert(hashes(after).take(i + 1).drop_last() =~= hashes(after).take(i as int));
        }
        i += 1;
    }
    proof {
        assert(hashes(after).take(i as int) =~= hashes(after));
        assert(records_view(metadata@) =~= after);
    }
    *location = Location { root, paths, metadata, lookup };
    location
}

/// The records of a whole scan: the shallow pass over the paths and the
/// sizes reported for them, then the deep pass over what was read.
pub open spec fn scanned(
    paths: Seq<Seq<char>>,
    sizes: Seq<Result<u64, Seq<char>>>,
    reads: Seq<FileReadView>,
) -> Seq<MetadataView> {
    deep_records(shallow_records(paths, sizes), reads)
}

/// The whole scan of the directory at `root_string`, from the listing of
/// its entries and from the size report and the reading of each regular
/// file among them, in the order of the listing. A directory that could
/// not be listed is the one failure that ends the scan; every other failure
/// is kept in the record of its file.
pub fn scan(
    root_string: String,
    listing: Result<Vec<DirEntry>, String>,
    sizes: &Vec<Result<u64, String>>,
    reads: &Vec<FileRead>,
) -> (r: Result<Location, FileParseError>)
    requires
        usize::BITS == 64,
        listing matches Ok(entries) ==> sizes@.len() == regular_files(entries_view(entries@)).len()
            && reads@.len() == regular_files(entries_view(entries@)).len(),
    ensures
        match listing {
            Ok(entries) => r is Ok && r->Ok_0@ == (LocationView {
                root: root_string@,
                paths: regular_files(entries_view(entries@)),
                metadata: scanned(
                    regular_files(entries_view(entries@)),
                    sizes_view(sizes@),
                    reads_view(reads@),
                ),
            }),
            Err(message) => r is Err && r->Err_0@ == FileParseErrorView::FileDoesNotExist(
                root_string@,
                message@,
            ),
        },
        forall|i: int|
            r is Ok && 0 <= i < reads@.len() && (#[trigger] reads@[i]).failure is None
                ==> r->Ok_0@.metadata[i].md5.len() == 2 * DIGEST_LEN,
{
    match add_location(root_string, listing) {
        Ok(location) => {
            let mut location = shallow_pass_location(location, sizes);
            assert(location@.metadata =~= shallow_records(location@.paths, sizes_view(sizes@)));
            deep_pass_location(&mut location, reads);
            Ok(location)
        },
        Err(e) => Err(e),
    }
}

} // verus!
