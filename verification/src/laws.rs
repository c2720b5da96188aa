//! What holds of every scan, stated over the functions that the contracts
//! of the two passes use, and proved from their definitions.

use crate::decode::{decoded_image_size, decoded_image_type, extension_of_format};
use crate::digest::{content_hash, lemma_lower_hex_injective, md5_of};
use crate::directory::{regular_files, DirEntryView};
use crate::extension::{declared_extension, Extension};
use crate::images::{
    advertised_extension_of, content_length_of, deep_parsed, deep_records, dimension_of, hashes,
    prefix_was_read, scanned, shallow_parsed, sniff_prefix, ErrorKind, FileParseErrorView,
    FileReadView, LocationView, MetadataView,
};
use crate::lookup::{
    bucket_index, indexed, indexes, is_duplicate_group, lemma_bucket_index, lemma_indexed,
    BucketView,
};
use crate::path::file_name;
use vstd::prelude::*;

verus! {

/// Whether `earlier` is what `later` starts with.
pub open spec fn starts_with<T>(later: Seq<T>, earlier: Seq<T>) -> bool {
    earlier.len() <= later.len() && later.take(earlier.len() as int) == earlier
}

/// A scan makes one record for each path, in the order of the paths, and
/// each record carries its path as the enumeration gave it: a path that is
/// not empty stays not empty.
pub proof fn lemma_records_keep_paths(
    paths: Seq<Seq<char>>,
    sizes: Seq<Result<u64, Seq<char>>>,
    reads: Seq<FileReadView>,
    i: int,
)
    requires
        0 <= i < paths.len(),
    ensures
        scanned(paths, sizes, reads).len() == paths.len(),
        scanned(paths, sizes, reads)[i].path == paths[i],
        paths[i].len() > 0 ==> scanned(paths, sizes, reads)[i].path.len() > 0,
{
}

/// The deep pass takes nothing out of a record that the shallow pass put
/// there: the errors before the pass are what the errors after it start
/// with, and path, title, declared format and size stay as they were.
pub proof fn lemma_errors_only_grow(record: MetadataView, read: FileReadView)
    ensures
        starts_with(deep_parsed(record, read).errors, record.errors),
        deep_parsed(record, read).path == record.path,
        deep_parsed(record, read).title == record.title,
        deep_parsed(record, read).advertised_extension == record.advertised_extension,
        deep_parsed(record, read).content_length == record.content_length,
{
    let after = deep_parsed(record, read).errors;
    assert(after.take(record.errors.len() as int) =~= record.errors);
}

/// What the deep pass makes of one file depends on the record and the
/// reading of that file alone: the records and readings of other files have
/// no part in it.
pub proof fn lemma_files_are_isolated(
    records: Seq<MetadataView>,
    reads: Seq<FileReadView>,
    others: Seq<MetadataView>,
    other_reads: Seq<FileReadView>,
    i: int,
)
    requires
        0 <= i < records.len(),
        0 <= i < others.len(),
        records[i] == others[i],
        reads[i] == other_reads[i],
    ensures
        deep_records(records, reads)[i] == deep_records(others, other_reads)[i],
        deep_records(records, reads).len() == records.len(),
{
}

/// Two files that were read to their ends and hold the same bytes get the
/// same digest, whatever their names and declared formats, and where that
/// digest is not empty they stand in one bucket of the index.
pub proof fn lemma_same_content_same_bucket(
    records: Seq<MetadataView>,
    reads: Seq<FileReadView>,
    i: int,
    j: int,
)
    requires
        0 <= i < records.len(),
        0 <= j < records.len(),
        reads[i].failure is None,
        reads[j].failure is None,
        reads[i].bytes == reads[j].bytes,
    ensures
        deep_records(records, reads)[i].md5 == content_hash(reads[i].bytes),
        deep_records(records, reads)[i].md5 == deep_records(records, reads)[j].md5,
        content_hash(reads[i].bytes).len() > 0 ==> {
            let index = indexed(hashes(deep_records(records, reads)));
            let k = bucket_index(index, content_hash(reads[i].bytes));
            0 <= k < index.len() && index[k].members.contains(i) && index[k].members.contains(j)
        },
{
    let after = deep_records(records, reads);
    let digest = content_hash(reads[i].bytes);
    if digest.len() > 0 {
        lemma_digest_bucket(hashes(after), i);
        lemma_digest_bucket(hashes(after), j);
    }
}

/// The record at position `i` stands in the bucket of its digest, where it
/// has a digest, and in no other bucket.
pub proof fn lemma_digest_bucket(digests: Seq<Seq<char>>, i: int)
    requires
        0 <= i < digests.len(),
        digests[i].len() > 0,
    ensures
        0 <= bucket_index(indexed(digests), digests[i]) < indexed(digests).len(),
        indexed(digests)[bucket_index(indexed(digests), digests[i])].hash == digests[i],
        forall|k: int|
            0 <= k < indexed(digests).len() ==> ((#[trigger] indexed(
                digests,
            )[k]).members.contains(i) <==> k == bucket_index(indexed(digests), digests[i])),
{
    let index = indexed(digests);
    lemma_indexed(digests);
    lemma_bucket_index(index, digests[i]);
    let home = bucket_index(index, digests[i]);
    assert forall|k: int| 0 <= k < index.len() implies ((#[trigger] index[k]).members.contains(i)
        <==> k == home) by {
        if index[k].members.contains(i) {
            // Bucket `k` has the digest of record `i`, as its home has: they are one.
            assert(index[k].hash == digests[i]);
            assert(index[home].hash == digests[i]);
        }
    }
}

/// A record stands in a group of duplicates exactly if another record
/// carries the same digest.
pub proof fn lemma_duplicates_have_twins(digests: Seq<Seq<char>>, i: int)
    requires
        0 <= i < digests.len(),
        digests[i].len() > 0,
    ensures
        is_duplicate_group(indexed(digests)[bucket_index(indexed(digests), digests[i])])
            <==> exists|j: int|
            0 <= j < digests.len() && j != i && #[trigger] digests[j] == digests[i],
{
    let index = indexed(digests);
    lemma_indexed(digests);
    lemma_digest_bucket(digests, i);
    let home = index[bucket_index(index, digests[i])];
    if is_duplicate_group(home) {
        // The first two members differ, so one of them is another record.
        assert(home.members[0] < home.members[1]);
        let j = if home.members[0] == i {
            home.members[1]
        } else {
            home.members[0]
        };
        assert(home.members.contains(j));
        assert(digests[j] == digests[i]);
    }
    if exists|j: int| 0 <= j < digests.len() && j != i && #[trigger] digests[j] == digests[i] {
        // The record and its twin stand at two places of the bucket.
        let j = choose|j: int|
            0 <= j < digests.len() && j != i && #[trigger] digests[j] == digests[i];
        assert(home.members.contains(i));
        assert(home.members.contains(j));
        let a = choose|a: int| 0 <= a < home.members.len() && home.members[a] == i;
        let b = choose|b: int| 0 <= b < home.members.len() && home.members[b] == j;
        assert(a != b);
    }
}

/// A record without a digest stands in no bucket.
pub proof fn lemma_no_digest_no_bucket(digests: Seq<Seq<char>>, i: int)
    requires
        0 <= i < digests.len(),
        digests[i].len() == 0,
    ensures
        forall|k: int|
            0 <= k < indexed(digests).len() ==> !(#[trigger] indexed(
                digests,
            )[k]).members.contains(i),
{
    lemma_indexed(digests);
}

/// Two files that were read to their ends and whose contents have
/// different MD5 digests get different digests in their records, and
/// no bucket of the index holds both.
pub proof fn lemma_different_content_different_bucket(
    records: Seq<MetadataView>,
    reads: Seq<FileReadView>,
    i: int,
    j: int,
)
    requires
        0 <= i < records.len(),
        0 <= j < records.len(),
        reads[i].failure is None,
        reads[j].failure is None,
        md5_of(reads[i].bytes) != md5_of(reads[j].bytes),
    ensures
        deep_records(records, reads)[i].md5 != deep_records(records, reads)[j].md5,
        forall|k: int|
            0 <= k < indexed(hashes(deep_records(records, reads))).len() ==> !((#[trigger] indexed(
                hashes(deep_records(records, reads)),
            )[k]).members.contains(i) && indexed(
                hashes(deep_records(records, reads)),
            )[k].members.contains(j)),
{
    let after = deep_records(records, reads);
    let index = indexed(hashes(after));
    if content_hash(reads[i].bytes) == content_hash(reads[j].bytes) {
        lemma_lower_hex_injective(md5_of(reads[i].bytes), md5_of(reads[j].bytes));
    }
    lemma_indexed(hashes(after));
    assert forall|k: int| 0 <= k < index.len() implies !((#[trigger] index[k]).members.contains(i)
        && index[k].members.contains(j)) by {
        if index[k].members.contains(i) && index[k].members.contains(j) {
            assert(hashes(after)[i] == index[k].hash);
            assert(hashes(after)[j] == index[k].hash);
        }
    }
}

/// A directory without regular files gives no record and an index without
/// buckets, and so no error.
pub proof fn lemma_empty_directory(entries: Seq<DirEntryView>)
    requires
        forall|i: int| 0 <= i < entries.len() ==> !(#[trigger] entries[i]).is_file,
    ensures
        regular_files(entries) == Seq::<Seq<char>>::empty(),
        scanned(
            regular_files(entries),
            Seq::<Result<u64, Seq<char>>>::empty(),
            Seq::<FileReadView>::empty(),
        ) == Seq::<MetadataView>::empty(),
        indexed(hashes(Seq::<MetadataView>::empty())) == Seq::<BucketView>::empty(),
    decreases entries.len(),
{
    if entries.len() > 0 {
        assert forall|i: int| 0 <= i < entries.drop_last().len() implies !(
        #[trigger] entries.drop_last()[i]).is_file by {
            assert(!entries[i].is_file);
        }
        lemma_empty_directory(entries.drop_last());
    }
}

/// Whether `error` is one that a record of the file at `path` can hold:
/// it names that path, and it is neither the failure to list a directory
/// nor a diagnostic that no file was tied to.
pub open spec fn concerns(error: FileParseErrorView, path: Seq<char>) -> bool {
    match error {
        FileParseErrorView::FileDoesNotExist(..) => false,
        FileParseErrorView::LibraryParseError { .. } => false,
        FileParseErrorView::ParseError(p, _) => p == path,
        FileParseErrorView::DimensionParseError(p, _) => p == path,
        FileParseErrorView::NoFileName(p, _) => p == path,
        FileParseErrorView::UnknownFileType(p, _) => p == path,
        FileParseErrorView::HashError(p, _) => p == path,
        FileParseErrorView::IOError(p, _) => p == path,
    }
}

/// Every error in a record of a scan concerns the file of that record: a
/// failure for one file shows in no other record, and the failure to list
/// a directory shows in none.
pub proof fn lemma_errors_concern_their_file(
    paths: Seq<Seq<char>>,
    sizes: Seq<Result<u64, Seq<char>>>,
    reads: Seq<FileReadView>,
    i: int,
    k: int,
)
    requires
        0 <= i < paths.len(),
        0 <= k < scanned(paths, sizes, reads)[i].errors.len(),
    ensures
        concerns(scanned(paths, sizes, reads)[i].errors[k], paths[i]),
        scanned(paths, sizes, reads)[i].errors[k].kind() != ErrorKind::DirectoryAccess,
{
    let shallow = shallow_parsed(paths[i], sizes[i]);
    assert(forall|j: int| 0 <= j < shallow.errors.len() ==> concerns(shallow.errors[j], paths[i]));
    let deep = deep_parsed(shallow, reads[i]);
    assert(forall|j: int| 0 <= j < deep.errors.len() ==> concerns(deep.errors[j], paths[i]));
}

/// A path without a file name still gets its record: the title stays
/// empty and a `NoFileName` error of the path says why. A path with a file
/// name gets that name as its title, which is not empty.
pub proof fn lemma_missing_name_is_recorded(path: Seq<char>, size: Result<u64, Seq<char>>)
    ensures
        file_name(path) is None ==> shallow_parsed(path, size).title.len() == 0 && exists|k: int|
            0 <= k < shallow_parsed(path, size).errors.len() && #[trigger] shallow_parsed(
                path,
                size,
            ).errors[k] == FileParseErrorView::NoFileName(path, "No file name"@),
        file_name(path) matches Some(name) ==> shallow_parsed(path, size).title == name
            && name.len() > 0 && forall|k: int|
            0 <= k < shallow_parsed(path, size).errors.len() ==> (#[trigger] shallow_parsed(
                path,
                size,
            ).errors[k]).kind() != ErrorKind::NoFileName,
{
    let record = shallow_parsed(path, size);
    if file_name(path) is None {
        let sized = MetadataView::fresh(path).with_size(content_length_of(path, size));
        assert(record.errors[sized.errors.len() as int] == FileParseErrorView::NoFileName(
            path,
            "No file name"@,
        ));
    }
}

/// A file whose name declares no known format still gets its record: the
/// declared format is `UNKNOWN`, the last error of the shallow pass is the
/// `UnknownFileType` of the path, and a name with a known suffix gets no
/// such error.
pub proof fn lemma_unknown_suffix_is_recorded(path: Seq<char>, size: Result<u64, Seq<char>>)
    ensures
        shallow_parsed(path, size).path == path,
        shallow_parsed(path, size).advertised_extension == declared_extension(path),
        declared_extension(path) == Extension::UNKNOWN ==> {
            let errors = shallow_parsed(path, size).errors;
            errors.len() > 0 && errors.last().kind() == ErrorKind::UnsupportedOrUnknownType
                && errors.last() == advertised_extension_of(path)->Err_0
                && errors.last()->UnknownFileType_0 == path
        },
        declared_extension(path) != Extension::UNKNOWN ==> forall|k: int|
            0 <= k < shallow_parsed(path, size).errors.len() ==> (#[trigger] shallow_parsed(
                path,
                size,
            ).errors[k]).kind() != ErrorKind::UnsupportedOrUnknownType,
{
}

/// A file whose content the decoder cannot make out keeps its record and
/// its declared format. Where the format is not recognised, the found
/// format is `UNKNOWN` and a `ParseError` with the decoder's diagnostic
/// follows the earlier errors. Where the format is recognised and the
/// dimensions are not, the found format stands and a `DimensionParseError`
/// with the diagnostic follows the earlier errors.
pub proof fn lemma_undecodable_content_is_recorded(record: MetadataView, read: FileReadView)
    requires
        prefix_was_read(read),
    ensures
        deep_parsed(record, read).path == record.path,
        deep_parsed(record, read).advertised_extension == record.advertised_extension,
        decoded_image_type(sniff_prefix(read.bytes)) matches Err(diagnostic) ==> {
            &&& deep_parsed(record, read).parsed_extension == Extension::UNKNOWN
            &&& deep_parsed(record, read).errors.len() > record.errors.len()
            &&& deep_parsed(record, read).errors[record.errors.len() as int]
                == FileParseErrorView::ParseError(record.path, diagnostic)
        },
        decoded_image_type(sniff_prefix(read.bytes)) matches Ok(format) ==> {
            &&& deep_parsed(record, read).parsed_extension == extension_of_format(format)
            &&& dimension_of(decoded_image_size(sniff_prefix(read.bytes))) matches Ok(size) ==> {
                &&& deep_parsed(record, read).width == size.0
                &&& deep_parsed(record, read).height == size.1
            }
            &&& dimension_of(decoded_image_size(sniff_prefix(read.bytes))) matches Err(e) ==> {
                &&& deep_parsed(record, read).errors.len() > record.errors.len()
                &&& deep_parsed(record, read).errors[record.errors.len() as int]
                    == FileParseErrorView::DimensionParseError(record.path, e->message)
            }
        },
{
}

/// A file that could not be read to its end has no digest after the deep
/// pass, its last error says so, and it stands in no bucket of the index.
pub proof fn lemma_unread_content_is_not_indexed(
    records: Seq<MetadataView>,
    reads: Seq<FileReadView>,
    i: int,
)
    requires
        0 <= i < records.len(),
        reads[i].failure is Some,
    ensures
        deep_records(records, reads)[i].md5.len() == 0,
        deep_records(records, reads)[i].errors.len() > 0,
        prefix_was_read(reads[i]) ==> deep_records(records, reads)[i].errors.last()
            == FileParseErrorView::HashError(records[i].path, reads[i].failure->0),
        !prefix_was_read(reads[i]) ==> deep_records(records, reads)[i].errors.last()
            == FileParseErrorView::IOError(records[i].path, reads[i].failure->0),
        forall|k: int|
            0 <= k < indexed(hashes(deep_records(records, reads))).len() ==> !(#[trigger] indexed(
                hashes(deep_records(records, reads)),
            )[k]).members.contains(i),
{
    lemma_no_digest_no_bucket(hashes(deep_records(records, reads)), i);
}

/// Two scans of the same entries, sizes and contents give the same
/// records, and with them the same digests and the same buckets.
pub proof fn lemma_scan_is_repeatable(
    first: LocationView,
    second: LocationView,
    root: Seq<char>,
    entries: Seq<DirEntryView>,
    sizes: Seq<Result<u64, Seq<char>>>,
    reads: Seq<FileReadView>,
)
    requires
        first.root == root,
        first.paths == regular_files(entries),
        first.metadata == scanned(first.paths, sizes, reads),
        second.root == root,
        second.paths == regular_files(entries),
        second.metadata == scanned(second.paths, sizes, reads),
    ensures
        first == second,
        hashes(first.metadata) == hashes(second.metadata),
        first.lookup() == second.lookup(),
        indexes(first.lookup(), hashes(first.metadata)),
{
    lemma_indexed(hashes(first.metadata));
}

} // verus!
