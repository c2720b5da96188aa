//! A directory and the records of its files, as the single-step parsers
//! fill them.

use crate::directory::{entries_view, paths_view, regular_file_paths, regular_files, DirEntry};
use crate::error::{ApplicationError, ApplicationErrorView};
use crate::metadata::{Metadata, MetadataView};
use vstd::prelude::*;

verus! {

#[derive(Debug, Default)]
pub struct Location {
    pub root: String,
    pub metadata: Vec<Metadata>,
}

/// The mathematical content of a `Location`.
pub struct LocationView {
    pub root: Seq<char>,
    pub metadata: Seq<MetadataView>,
}

/// The mathematical content of a list of records.
pub open spec fn records_view(records: Seq<Metadata>) -> Seq<MetadataView> {
    records.map_values(|m: Metadata| m@)
}

/// The empty records of the paths, one for each path.
pub open spec fn new_records(paths: Seq<Seq<char>>) -> Seq<MetadataView> {
    Seq::new(
        paths.len(),
        |i: int|
            MetadataView {
                path: paths[i],
                file_details: None,
                image_size_details: None,
                exif_details: None,
            },
    )
}

impl View for Location {
    type V = LocationView;

    open spec fn view(&self) -> LocationView {
        LocationView { root: self.root@, metadata: records_view(self.metadata@) }
    }
}

/// The records to fill: an empty one for each regular file among the
/// entries of a directory that could be listed, or the message of the
/// failure to list it.
pub fn verify_dir(listing: Result<Vec<DirEntry>, String>) -> (r: Result<Vec<Metadata>, String>)
    ensures
        match listing {
            Ok(entries) => r is Ok && records_view(r->Ok_0@) == new_records(
                regular_files(entries_view(entries@)),
            ),
            Err(message) => r is Err && r->Err_0@ == message@,
        },
{
    match listing {
        Ok(entries) => {
            let paths = regular_file_paths(&entries);
            let ghost all = paths_view(paths@);
            let mut records: Vec<Metadata> = Vec::new();
            let mut i: usize = 0;
            while i < paths.len()
                invariant
                    i <= paths.len(),
                    all == paths_view(paths@),
                    records_view(records@) == new_records(all).take(i as int),
                decreases paths.len() - i,
            {
                let ghost made = records_view(records@);
                let record = Metadata::new(paths[i].clone());
                assert(record@ == new_records(all)[i as int]);
                records.push(record);
                i += 1;
                assert(made.push(record@) =~= new_records(all).take(i as int));
            }
            Ok(records)
        },
        Err(message) => Err(message),
    }
}

/// Starts the work on the directory at `root_string` from the listing of
/// its entries: an empty record for each regular file, or an `IOError`
/// with the message of the failure to list the directory.
pub fn add_location(root_string: String, listing: Result<Vec<DirEntry>, String>) -> (r: Result<
    Location,
    ApplicationError,
>)
    ensures
        match listing {
            Ok(entries) => r is Ok && r->Ok_0@ == (LocationView {
                root: root_string@,
                metadata: new_records(regular_files(entries_view(entries@))),
            }),
            Err(message) => r is Err && r->Err_0@ == ApplicationErrorView::IOError(
                root_string@,
                message@,
            ),
        },
{
    match verify_dir(listing) {
        Ok(metadata) => Ok(Location { root: root_string, metadata }),
        Err(e) => Err(ApplicationError::IOError(root_string, e)),
    }
}

} // verus!
