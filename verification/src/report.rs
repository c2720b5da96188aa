//! What a report tells of the records that the single-step parsers
//! filled: which records are left out, how the others group by declared
//! format, and for how many a parser failed.

use crate::extension::Extension;
use crate::location::records_view;
use crate::metadata::{Metadata, MetadataView};
use vstd::prelude::*;

verus! {

/// Whether a record is reported: its file details are there and its
/// declared format is not one of moving pictures.
pub open spec fn is_reported(record: MetadataView) -> bool {
    record.file_details matches Some(details) && details.extension != Extension::MP4
        && details.extension != Extension::MOV
}

/// The records that are reported, in their order.
pub open spec fn reported(records: Seq<MetadataView>) -> Seq<MetadataView>
    decreases records.len(),
{
    if records.len() == 0 {
        Seq::empty()
    } else if is_reported(records.last()) {
        reported(records.drop_last()).push(records.last())
    } else {
        reported(records.drop_last())
    }
}

/// Whether the record declares the format `extension`.
pub open spec fn declares(record: MetadataView, extension: Extension) -> bool {
    record.file_details matches Some(details) && details.extension == extension
}

/// The positions of the records that declare the format `extension`,
/// ascending.
pub open spec fn positions_declaring(records: Seq<MetadataView>, extension: Extension) -> Seq<int>
    decreases records.len(),
{
    if records.len() == 0 {
        Seq::empty()
    } else if declares(records.last(), extension) {
        positions_declaring(records.drop_last(), extension).push(records.len() - 1)
    } else {
        positions_declaring(records.drop_last(), extension)
    }
}

/// The parts of a record.
#[derive(Clone, Copy, Debug, PartialEq, Eq, Structural)]
pub enum Part {
    FileDetails,
    ImageSizeDetails,
    ExifDetails,
}

/// Whether the record lacks the part.
pub open spec fn lacks(record: MetadataView, part: Part) -> bool {
    match part {
        Part::FileDetails => record.file_details is None,
        Part::ImageSizeDetails => record.image_size_details is None,
        Part::ExifDetails => record.exif_details is None,
    }
}

/// The number of records that lack the part.
pub open spec fn count_lacking(records: Seq<MetadataView>, part: Part) -> nat
    decreases records.len(),
{
    if records.len() == 0 {
        0
    } else if lacks(records.last(), part) {
        count_lacking(records.drop_last(), part) + 1
    } else {
        count_lacking(records.drop_last(), part)
    }
}

/// The reported records are the records that are reported, and no others.
pub proof fn lemma_reported(records: Seq<MetadataView>)
    ensures
        reported(records).len() <= records.len(),
        forall|record: MetadataView| #[trigger]
            reported(records).contains(record) <==> records.contains(record) && is_reported(
                record,
            ),
    decreases records.len(),
{
    if records.len() > 0 {
        let rest = records.drop_last();
        let kept = reported(records);
        let earlier = reported(rest);
        lemma_reported(rest);
        assert forall|record: MetadataView| #[trigger]
            kept.contains(record) <==> records.contains(record) && is_reported(record) by {
            if kept.contains(record) {
                let found = choose|found: int| 0 <= found < kept.len() && kept[found] == record;
                if found < earlier.len() {
                    assert(earlier[found] == record);
                    assert(earlier.contains(record));
                    let at = choose|at: int| 0 <= at < rest.len() && rest[at] == record;
                    assert(records[at] == record);
                } else {
                    assert(records[records.len() - 1] == record);
                }
            }
            if records.contains(record) && is_reported(record) {
                let at = choose|at: int| 0 <= at < records.len() && records[at] == record;
                if at < rest.len() {
                    assert(rest[at] == record);
                    assert(rest.contains(record));
                    assert(earlier.contains(record));
                    let found = choose|found: int|
                        0 <= found < earlier.len() && earlier[found] == record;
                    assert(kept[found] == record);
                } else {
                    assert(kept[kept.len() - 1] == record);
                }
            }
        }
    }
}

/// A position stands among those that declare a format exactly if the
/// record there declares it, and the positions ascend.
pub proof fn lemma_positions_declaring(records: Seq<MetadataView>, extension: Extension)
    ensures
        forall|i: int| #[trigger]
            positions_declaring(records, extension).contains(i) <==> 0 <= i < records.len()
                && declares(records[i], extension),
        forall|a: int, b: int|
            0 <= a < b < positions_declaring(records, extension).len() ==> positions_declaring(
                records,
                extension,
            )[a] < positions_declaring(records, extension)[b],
    decreases records.len(),
{
    if records.len() > 0 {
        let rest = records.drop_last();
        let found = positions_declaring(records, extension);
        let before = positions_declaring(rest, extension);
        lemma_positions_declaring(rest, extension);
        assert forall|i: int| #[trigger] found.contains(i) <==> 0 <= i < records.len() && declares(
            records[i],
            extension,
        ) by {
            if found.contains(i) {
                let at = choose|at: int| 0 <= at < found.len() && found[at] == i;
                if at < before.len() {
                    assert(before.contains(i));
                }
            }
            if 0 <= i < records.len() && declares(records[i], extension) {
                if i < rest.len() {
                    assert(before.contains(i));
                    let at = choose|at: int| 0 <= at < before.len() && before[at] == i;
                    assert(found[at] == i);
                } else {
                    assert(found[found.len() - 1] == i);
                }
            }
        }
        assert forall|a: int, b: int| 0 <= a < b < found.len() implies found[a] < found[b] by {
            if b == before.len() {
                assert(before.contains(before[a]));
            }
        }
    }
}

/// Whether the record is reported.
pub fn keeps(record: &Metadata) -> (r: bool)
    ensures
        r == is_reported(record@),
{
    match &record.file_details {
        Some(details) => details.extension != Extension::MP4 && details.extension
            != Extension::MOV,
        None => false,
    }
}

/// Takes out the records that are not reported: those without file
/// details and those of moving pictures. The others keep their order.
pub fn retain_reported(metadata: &mut Vec<Metadata>)
    ensures
        records_view(final(metadata)@) == reported(records_view(old(metadata)@)),
        final(metadata)@.len() <= old(metadata)@.len(),
        forall|k: int|
            0 <= k < final(metadata)@.len() ==> is_reported(#[trigger] final(metadata)@[k]@),
{
    proof {
        let kept = reported(records_view(old(metadata)@));
        lemma_reported(records_view(old(metadata)@));
        assert forall|k: int| 0 <= k < kept.len() implies is_reported(#[trigger] kept[k]) by {
            assert(kept.contains(kept[k]));
        }
    }
    let mut all: Vec<Metadata> = Vec::new();
    std::mem::swap(metadata, &mut all);
    let ghost before = records_view(all@);
    for record in it: all
        invariant
            records_view(it.seq()) == before,
            records_view(metadata@) == reported(before.take(it.index() as int)),
    {
        let ghost position = it.index() as int;
        assert(before.take(position + 1).drop_last() == before.take(position));
        if keeps(&record) {
            metadata.push(record);
        }
    }
    proof {
        assert(before.take(before.len() as int) == before);
        assert forall|k: int| 0 <= k < metadata@.len() implies is_reported(
            #[trigger] metadata@[k]@,
        ) by {
            assert(records_view(metadata@)[k] == metadata@[k]@);
        }
    }
}

/// The positions of the records that declare the format `extension`.
pub fn positions_with_extension(metadata: &[Metadata], extension: Extension) -> (r: Vec<usize>)
    ensures
        r@.map_values(|p: usize| p as int) == positions_declaring(
            records_view(metadata@),
            extension,
        ),
        forall|i: usize| #[trigger]
            r@.contains(i) <==> i < metadata@.len() && declares(metadata@[i as int]@, extension),
{
    let ghost records = records_view(metadata@);
    let mut found: Vec<usize> = Vec::new();
    let mut i: usize = 0;
    while i < metadata.len()
        invariant
            i <= metadata.len(),
            records == records_view(metadata@),
            found@.map_values(|p: usize| p as int) == positions_declaring(
                records.take(i as int),
                extension,
            ),
        decreases metadata.len() - i,
    {
        assert(records.take(i + 1).drop_last() == records.take(i as int));
        let declared = match &metadata[i].file_details {
            Some(details) => details.extension == extension,
            None => false,
        };
        if declared {
            found.push(i);
        }
        i += 1;
    }
    proof {
        assert(records.take(i as int) == records);
        lemma_positions_declaring(records, extension);
        let ints = found@.map_values(|p: usize| p as int);
        assert forall|i: usize| #[trigger]
            found@.contains(i) <==> i < metadata@.len() && declares(
                metadata@[i as int]@,
                extension,
            ) by {
            if found@.contains(i) {
                let at = choose|at: int| 0 <= at < found@.len() && found@[at] == i;
                assert(ints[at] == i as int);
                assert(ints.contains(i as int));
            }
            if i < metadata@.len() && declares(metadata@[i as int]@, extension) {
                assert(ints.contains(i as int));
                let at = choose|at: int| 0 <= at < ints.len() && ints[at] == i as int;
                assert(found@[at] == i);
            }
        }
    }
    found
}

/// The number of records that lack the part.
pub fn count_missing(metadata: &[Metadata], part: Part) -> (r: usize)
    ensures
        r == count_lacking(records_view(metadata@), part),
{
    let ghost records = records_view(metadata@);
    let mut count: usize = 0;
    let mut i: usize = 0;
    while i < metadata.len()
        invariant
            i <= metadata.len(),
            records == records_view(metadata@),
            count == count_lacking(records.take(i as int), part),
            count <= i,
        decreases metadata.len() - i,
    {
        assert(records.take(i + 1).drop_last() == records.take(i as int));
        let missing = match part {
            Part::FileDetails => metadata[i].file_details.is_none(),
            Part::ImageSizeDetails => metadata[i].image_size_details.is_none(),
            Part::ExifDetails => metadata[i].exif_details.is_none(),
        };
        if missing {
            count += 1;
        }
        i += 1;
    }
    assert(records.take(i as int) == records);
    count
}

/// The number of records, and the number of them without file details.
pub fn file_detail_results(metadata: &[Metadata]) -> (r: (usize, usize))
    ensures
        r.0 == metadata@.len(),
        r.1 == count_lacking(records_view(metadata@), Part::FileDetails),
{
    (metadata.len(), count_missing(metadata, Part::FileDetails))
}

/// The number of records without image size details.
pub fn file_image_results(metadata: &[Metadata]) -> (r: usize)
    ensures
        r == count_lacking(records_view(metadata@), Part::ImageSizeDetails),
{
    count_missing(metadata, Part::ImageSizeDetails)
}

/// The number of records without EXIF details.
pub fn exif_results(metadata: &[Metadata]) -> (r: usize)
    ensures
        r == count_lacking(records_view(metadata@), Part::ExifDetails),
{
    count_missing(metadata, Part::ExifDetails)
}

} // verus!
