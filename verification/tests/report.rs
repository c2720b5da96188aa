use media_catalog::exif::ExifDetails;
use media_catalog::extension::Extension;
use media_catalog::file::FileDetails;
use media_catalog::images::{shallow_parse, FileRead, Location};
use media_catalog::images::{add_location, deep_parse};
use media_catalog::imagesize::ImageSizeDetails;
use media_catalog::metadata::Metadata;
use media_catalog::report::{
    count_missing, exif_results, file_detail_results, file_image_results, keeps,
    positions_with_extension, retain_reported, Part,
};

fn record(path: &str, extension: Option<Extension>) -> Metadata {
    let mut r = Metadata::new(path.to_string());
    if let Some(extension) = extension {
        r.update_file_details(Some(FileDetails {
            path: path.to_string(),
            title: path.to_string(),
            extension,
            content_length: 1,
        }));
    }
    r
}

fn sample() -> Vec<Metadata> {
    vec![
        record("a.jpg", Some(Extension::JPG)),
        record("b.mp4", Some(Extension::MP4)),
        record("c", None),
        record("d.png", Some(Extension::PNG)),
        record("e.mov", Some(Extension::MOV)),
        record("f.jpeg", Some(Extension::JPG)),
    ]
}

#[test]
fn moving_pictures_and_unparsed_files_are_not_reported() {
    assert!(keeps(&record("a.jpg", Some(Extension::JPG))));
    assert!(keeps(&record("a.x", Some(Extension::UNKNOWN))));
    assert!(!keeps(&record("a.mp4", Some(Extension::MP4))));
    assert!(!keeps(&record("a.mov", Some(Extension::MOV))));
    assert!(!keeps(&record("a", None)));
    let mut records = sample();
    retain_reported(&mut records);
    let paths: Vec<&str> = records.iter().map(|r| r.path.as_str()).collect();
    assert_eq!(paths, vec!["a.jpg", "d.png", "f.jpeg"]);
    retain_reported(&mut records);
    assert_eq!(records.len(), 3);
    let mut none: Vec<Metadata> = vec![];
    retain_reported(&mut none);
    assert!(none.is_empty());
}

#[test]
fn records_group_by_declared_format() {
    let records = sample();
    assert_eq!(positions_with_extension(&records, Extension::JPG), vec![0, 5]);
    assert_eq!(positions_with_extension(&records, Extension::MP4), vec![1]);
    assert_eq!(positions_with_extension(&records, Extension::PNG), vec![3]);
    assert_eq!(positions_with_extension(&records, Extension::GIF), Vec::<usize>::new());
    assert_eq!(positions_with_extension(&records, Extension::UNKNOWN), Vec::<usize>::new());
    assert_eq!(positions_with_extension(&[], Extension::JPG), Vec::<usize>::new());
}

#[test]
fn missing_parts_are_counted() {
    let mut records = sample();
    records[0].update_image_size_details(Some(ImageSizeDetails {
        width: 1,
        height: 1,
        extension: Extension::JPG,
    }));
    records[3].update_exif_details(Some(ExifDetails { content_length: 200 }));
    records[5].update_exif_details(Some(ExifDetails { content_length: 200 }));
    assert_eq!(file_detail_results(&records), (6, 1));
    assert_eq!(file_image_results(&records), 5);
    assert_eq!(exif_results(&records), 4);
    assert_eq!(count_missing(&records, Part::FileDetails), 1);
    assert_eq!(count_missing(&records, Part::ImageSizeDetails), 5);
    assert_eq!(count_missing(&records, Part::ExifDetails), 4);
    assert_eq!(file_detail_results(&[]), (0, 0));
    assert_eq!(file_image_results(&[]), 0);
    assert_eq!(exif_results(&[]), 0);
}

fn groups(location: &Location) -> Vec<(String, Vec<usize>)> {
    location
        .lookup()
        .duplicate_groups()
        .iter()
        .map(|b| (b.hash.clone(), b.members.clone()))
        .collect()
}

#[test]
fn duplicate_groups_are_the_buckets_of_two_or_more() {
    let mut location = add_location("/d".to_string(), Ok(vec![])).unwrap();
    assert!(groups(&location).is_empty());
    for (path, content) in [
        ("/d/a", &b"one"[..]),
        ("/d/b", &b"two"[..]),
        ("/d/c", &b"one"[..]),
        ("/d/d", &b"three"[..]),
        ("/d/e", &b"two"[..]),
        ("/d/f", &b"one"[..]),
    ] {
        let mut record = shallow_parse(path, &Ok(content.len() as u64));
        deep_parse(&mut record, &FileRead { bytes: content.to_vec(), failure: None });
        location.add_record(record);
    }
    assert_eq!(location.metadata().len(), 6);
    assert_eq!(location.lookup().len(), 3);
    let one = location.metadata()[0].md5.clone();
    let two = location.metadata()[1].md5.clone();
    assert_eq!(groups(&location), vec![(one, vec![0, 2, 5]), (two, vec![1, 4])]);
}

#[test]
fn records_without_digest_are_added_but_not_indexed() {
    let mut location = add_location("/d".to_string(), Ok(vec![])).unwrap();
    let mut unread = shallow_parse("/d/a.png", &Ok(3));
    deep_parse(&mut unread, &FileRead { bytes: vec![1, 2], failure: Some("cut".to_string()) });
    location.add_record(unread.clone());
    location.add_record(shallow_parse("/d/b.png", &Ok(3)));
    assert_eq!(location.metadata().len(), 2);
    assert_eq!(location.metadata()[0], unread);
    assert!(location.lookup().is_empty());
    assert!(location.paths().is_empty());
    assert_eq!(location.root(), "/d");
}
