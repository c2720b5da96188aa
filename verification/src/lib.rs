//! Cataloguing of the files of one directory: every file gets a record of its
//! name, declared and actual format, size, pixel dimensions and content
//! digest, and records with the same digest are grouped as duplicates.

pub mod decode;
pub mod digest;
pub mod directory;
pub mod error;
pub mod exif;
pub mod extension;
pub mod file;
pub mod images;
pub mod imagesize;
pub mod laws;
pub mod location;
pub mod lookup;
pub mod metadata;
pub mod path;
pub mod report;
pub mod text;
