use media_catalog::decode::ImageFormat;
use media_catalog::directory::DirEntry;
use media_catalog::error::ApplicationError;
use media_catalog::exif::{parse_exif_details, ExifDetails};
use media_catalog::extension::Extension;
use media_catalog::file::{
    parse_extension as parse_declared_extension, parse_file_details,
    parse_fs_content_length as parse_reported_length, parse_title as parse_file_title, FileDetails,
};
use media_catalog::imagesize::{
    dimension_from_decoded as dimension_for_path, file_type_from_decoded as file_type_for_path,
    parse_dimension_from_bytes as parse_dimension_for_path,
    parse_file_type_from_bytes as parse_file_type_for_path, parse_using_imagesize,
    ImageSizeDetails, HEADER_LEN,
};
use media_catalog::location::{add_location as start_location, verify_dir as new_records};
use media_catalog::metadata::Metadata as Record;

fn s(text: &str) -> String {
    text.to_string()
}

fn png(width: u32, height: u32) -> Vec<u8> {
    let mut bytes = vec![0x89, b'P', b'N', b'G', 0x0d, 0x0a, 0x1a, 0x0a, 0, 0, 0, 13];
    bytes.extend_from_slice(b"IHDR");
    bytes.extend_from_slice(&width.to_be_bytes());
    bytes.extend_from_slice(&height.to_be_bytes());
    bytes.extend_from_slice(&[8, 6, 0, 0, 0]);
    bytes
}

#[test]
fn file_details_of_a_sound_path() {
    assert_eq!(
        parse_file_details("/photos/Dog.jpeg", &Ok(2048)),
        Ok(FileDetails {
            path: s("/photos/Dog.jpeg"),
            title: s("Dog.jpeg"),
            extension: Extension::JPG,
            content_length: 2048,
        })
    );
}

#[test]
fn file_details_give_up_at_the_first_error() {
    assert_eq!(
        parse_file_details("/photos/", &Err(s("gone"))),
        Err(ApplicationError::NoFileName(s("/photos/"), s("No file name detected")))
    );
    assert_eq!(
        parse_file_details("/photos/README", &Err(s("gone"))),
        Err(ApplicationError::UnknownFileType(s("/photos/README"), s("Unknown file extension")))
    );
    assert_eq!(
        parse_file_details("/photos/a.txt", &Err(s("gone"))),
        Err(ApplicationError::UnsupportedFileType(
            s("/photos/a.txt"),
            s("Unsupported file extension")
        ))
    );
    assert_eq!(
        parse_file_details("/photos/a.png", &Err(s("gone"))),
        Err(ApplicationError::IOError(s("/photos/a.png"), s("gone")))
    );
}

#[test]
fn single_step_name_parsers() {
    assert_eq!(parse_file_title("x/y.z"), Ok(s("y.z")));
    assert_eq!(
        parse_file_title(""),
        Err(ApplicationError::NoFileName(s(""), s("No file name detected")))
    );
    assert_eq!(parse_declared_extension("x/y.MOV"), Ok(Extension::MOV));
    assert_eq!(
        parse_declared_extension("x/.mov"),
        Err(ApplicationError::UnknownFileType(s("x/.mov"), s("Unknown file extension")))
    );
    assert_eq!(parse_reported_length("x", &Ok(0)), Ok(0));
    assert_eq!(
        parse_reported_length("x", &Err(s("denied"))),
        Err(ApplicationError::IOError(s("x"), s("denied")))
    );
}

#[test]
fn image_size_details_of_a_sound_image() {
    assert_eq!(
        parse_using_imagesize("/d/a.png", &png(300, 200)),
        Ok(ImageSizeDetails { width: 300, height: 200, extension: Extension::PNG })
    );
    // The name has no part in it.
    assert_eq!(
        parse_using_imagesize("/d/a.txt", &png(300, 200)),
        Ok(ImageSizeDetails { width: 300, height: 200, extension: Extension::PNG })
    );
}

#[test]
fn image_size_details_of_unsound_content() {
    assert_eq!(
        parse_using_imagesize("/d/a.png", b"this is a text of some length"),
        Err(ApplicationError::LibraryParseError(s("/d/a.png"), s("Could not decode image")))
    );
    assert!(matches!(
        parse_using_imagesize("/d/a.png", b"short"),
        Err(ApplicationError::LibraryParseError(p, _)) if p == "/d/a.png"
    ));
    assert!(matches!(
        parse_using_imagesize("/d/a.png", b""),
        Err(ApplicationError::LibraryParseError(p, _)) if p == "/d/a.png"
    ));
    assert!(matches!(
        parse_using_imagesize("/d/a.png", &png(300, 200)[..20]),
        Err(ApplicationError::LibraryParseError(p, _)) if p == "/d/a.png"
    ));
}

#[test]
fn single_step_decoders() {
    assert_eq!(HEADER_LEN, 12);
    assert_eq!(parse_dimension_for_path("p", &png(9, 8)), Ok((9, 8)));
    assert_eq!(parse_file_type_for_path("p", &png(9, 8)), Ok(Extension::PNG));
    assert_eq!(parse_file_type_for_path("p", &png(9, 8)[..4]), Ok(Extension::PNG));
    assert_eq!(
        parse_file_type_for_path("p", b"RIFF\0\0\0\0WEBP"),
        Ok(Extension::WEBP)
    );
    assert_eq!(
        parse_file_type_for_path("p", b""),
        Err(ApplicationError::LibraryParseError(s("p"), s("Not enough data")))
    );
    assert_eq!(dimension_for_path("p", Ok((1, 2))), Ok((1, 2)));
    assert_eq!(
        dimension_for_path("p", Ok((usize::MAX, 2))),
        Err(ApplicationError::LibraryParseError(s("p"), s("Image dimensions out of range")))
    );
    assert_eq!(
        dimension_for_path("p", Err(s("bad"))),
        Err(ApplicationError::LibraryParseError(s("p"), s("bad")))
    );
    assert_eq!(file_type_for_path("p", Ok(ImageFormat::Gif)), Ok(Extension::GIF));
    assert_eq!(
        file_type_for_path("p", Err(s("bad"))),
        Err(ApplicationError::LibraryParseError(s("p"), s("bad")))
    );
}

#[test]
fn exif_details_are_a_placeholder() {
    assert_eq!(parse_exif_details("/d/a.jpg", &Ok(())), Ok(ExifDetails { content_length: 200 }));
    assert_eq!(
        parse_exif_details("/d/a.jpg", &Err(s("Unknown image format"))),
        Err(ApplicationError::ExifParseError(s("/d/a.jpg"), s("Unknown image format")))
    );
}

#[test]
fn record_parts_are_filled_one_by_one() {
    let mut record = Record::new(s("/d/a.png"));
    assert_eq!(
        record,
        Record {
            path: s("/d/a.png"),
            file_details: None,
            image_size_details: None,
            exif_details: None,
        }
    );
    let details = parse_file_details("/d/a.png", &Ok(1)).unwrap();
    record.update_file_details(Some(details.clone()));
    assert_eq!(record.file_details, Some(details));
    assert_eq!(record.image_size_details, None);
    let size = ImageSizeDetails { width: 1, height: 2, extension: Extension::PNG };
    record.update_image_size_details(Some(size));
    assert_eq!(record.image_size_details, Some(size));
    record.update_exif_details(Some(ExifDetails { content_length: 200 }));
    assert_eq!(record.exif_details, Some(ExifDetails { content_length: 200 }));
    record.update_file_details(None);
    record.update_exif_details(None);
    assert_eq!(record.file_details, None);
    assert_eq!(record.exif_details, None);
    assert_eq!(record.image_size_details, Some(size));
    assert_eq!(record.path, "/d/a.png");
}

#[test]
fn location_starts_with_empty_records() {
    let entries = vec![
        DirEntry { path: s("/d/a.png"), is_file: true },
        DirEntry { path: s("/d/sub"), is_file: false },
        DirEntry { path: s("/d/b"), is_file: true },
    ];
    let location = start_location(s("/d"), Ok(entries.clone())).unwrap();
    assert_eq!(location.root, "/d");
    assert_eq!(location.metadata, vec![Record::new(s("/d/a.png")), Record::new(s("/d/b"))]);
    assert_eq!(
        new_records(Ok(entries)),
        Ok(vec![Record::new(s("/d/a.png")), Record::new(s("/d/b"))])
    );
    assert_eq!(new_records(Ok(vec![])), Ok(vec![]));
    assert_eq!(new_records(Err(s("denied"))), Err(s("denied")));
}

#[test]
fn location_of_a_missing_directory() {
    match start_location(s("/none"), Err(s("No such file or directory"))) {
        Err(e) => {
            assert_eq!(e, ApplicationError::IOError(s("/none"), s("No such file or directory")))
        }
        Ok(_) => panic!("a directory that cannot be listed gives no location"),
    }
}
