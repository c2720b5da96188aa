use media_catalog::decode::{
    decoder_is_supported, format_extension, narrow_dimension, ImageFormat, SNIFF_PREFIX_LEN,
};
use media_catalog::extension::Extension;
use media_catalog::images::{
    dimension_from_decoded, file_type_from_decoded, parse_dimension_from_bytes,
    parse_file_type_from_bytes, parse_first_n_bytes, wants_dimensions, FileParseError, FileRead,
};

fn png(width: u32, height: u32) -> Vec<u8> {
    let mut bytes = vec![0x89, b'P', b'N', b'G', 0x0d, 0x0a, 0x1a, 0x0a, 0, 0, 0, 13];
    bytes.extend_from_slice(b"IHDR");
    bytes.extend_from_slice(&width.to_be_bytes());
    bytes.extend_from_slice(&height.to_be_bytes());
    bytes.extend_from_slice(&[8, 6, 0, 0, 0]);
    bytes
}

fn gif(width: u16, height: u16) -> Vec<u8> {
    let mut bytes = b"GIF89a".to_vec();
    bytes.extend_from_slice(&width.to_le_bytes());
    bytes.extend_from_slice(&height.to_le_bytes());
    bytes.extend_from_slice(&[0, 0, 0]);
    bytes
}

fn bmp(width: u32, height: u32) -> Vec<u8> {
    let mut bytes = b"BM".to_vec();
    bytes.extend_from_slice(&[0; 16]);
    bytes.extend_from_slice(&width.to_le_bytes());
    bytes.extend_from_slice(&height.to_le_bytes());
    bytes
}

fn jpeg(width: u16, height: u16) -> Vec<u8> {
    let mut bytes = vec![0xff, 0xd8, 0xff, 0xe0, 0x00, 0x10];
    bytes.extend_from_slice(b"JFIF\0");
    bytes.extend_from_slice(&[1, 1, 0, 0, 1, 0, 1, 0, 0]);
    bytes.extend_from_slice(&[0xff, 0xc0, 0x00, 0x11, 0x08]);
    bytes.extend_from_slice(&height.to_be_bytes());
    bytes.extend_from_slice(&width.to_be_bytes());
    bytes.extend_from_slice(&[3, 1, 0x22, 0, 2, 0x11, 1, 3, 0x11, 1]);
    bytes
}

fn library_error(message: &str) -> FileParseError {
    FileParseError::LibraryParseError { message: message.to_string() }
}

#[test]
fn decoder_formats_map_to_catalogue_formats() {
    assert_eq!(format_extension(ImageFormat::Jpeg), Extension::JPG);
    assert_eq!(format_extension(ImageFormat::Png), Extension::PNG);
    assert_eq!(format_extension(ImageFormat::Gif), Extension::GIF);
    assert_eq!(format_extension(ImageFormat::Bmp), Extension::BMP);
    assert_eq!(format_extension(ImageFormat::Webp), Extension::WEBP);
    assert_eq!(format_extension(ImageFormat::Tiff), Extension::TIFF);
    assert_eq!(format_extension(ImageFormat::Heif), Extension::HEIF);
    assert_eq!(format_extension(ImageFormat::Jxl), Extension::JXL);
    assert_eq!(format_extension(ImageFormat::Psd), Extension::PSD);
}

#[test]
fn file_type_from_a_decoder_answer() {
    assert_eq!(file_type_from_decoded(Ok(ImageFormat::Png)), Ok(Extension::PNG));
    assert_eq!(file_type_from_decoded(Ok(ImageFormat::Heif)), Ok(Extension::HEIF));
    assert_eq!(
        file_type_from_decoded(Err("Could not decode image".to_string())),
        Err(library_error("Could not decode image"))
    );
}

#[test]
fn dimension_from_a_decoder_answer() {
    assert_eq!(dimension_from_decoded(Ok((640, 480))), Ok((640, 480)));
    assert_eq!(dimension_from_decoded(Ok((0, 0))), Ok((0, 0)));
    assert_eq!(
        dimension_from_decoded(Ok((u32::MAX as usize, u32::MAX as usize))),
        Ok((u32::MAX, u32::MAX))
    );
    assert_eq!(
        dimension_from_decoded(Err("Hit end of file before finding size".to_string())),
        Err(library_error("Hit end of file before finding size"))
    );
}

#[test]
fn dimension_that_does_not_fit_is_an_error() {
    let too_wide = u32::MAX as usize + 1;
    assert_eq!(
        narrow_dimension(Ok((too_wide, 1))),
        Err("Image dimensions out of range".to_string())
    );
    assert_eq!(
        narrow_dimension(Ok((1, too_wide))),
        Err("Image dimensions out of range".to_string())
    );
    assert_eq!(narrow_dimension(Ok((7, 9))), Ok((7, 9)));
    assert_eq!(
        dimension_from_decoded(Ok((too_wide, 1))),
        Err(library_error("Image dimensions out of range"))
    );
}

#[test]
fn prefix_is_the_whole_of_a_short_content() {
    assert_eq!(parse_first_n_bytes(&[]), &[] as &[u8]);
    assert_eq!(parse_first_n_bytes(&[1, 2, 3]), &[1, 2, 3]);
    let exact = vec![5u8; SNIFF_PREFIX_LEN];
    assert_eq!(parse_first_n_bytes(&exact).len(), SNIFF_PREFIX_LEN);
}

#[test]
fn prefix_is_cut_at_the_documented_length() {
    assert_eq!(SNIFF_PREFIX_LEN, 65536);
    let mut long = vec![1u8; SNIFF_PREFIX_LEN];
    long.extend_from_slice(&[2, 2, 2]);
    let prefix = parse_first_n_bytes(&long);
    assert_eq!(prefix.len(), SNIFF_PREFIX_LEN);
    assert!(prefix.iter().all(|b| *b == 1));
}

#[test]
fn signatures_are_recognised() {
    assert_eq!(parse_file_type_from_bytes(&png(1, 1)), Ok(Extension::PNG));
    assert_eq!(parse_file_type_from_bytes(&gif(1, 1)), Ok(Extension::GIF));
    assert_eq!(parse_file_type_from_bytes(&bmp(1, 1)), Ok(Extension::BMP));
    assert_eq!(parse_file_type_from_bytes(&jpeg(1, 1)), Ok(Extension::JPG));
    assert_eq!(parse_file_type_from_bytes(b"II\x2a\x00rest"), Ok(Extension::TIFF));
    assert_eq!(parse_file_type_from_bytes(b"MM\x00\x2arest"), Ok(Extension::TIFF));
    assert_eq!(parse_file_type_from_bytes(b"8BPSrest"), Ok(Extension::PSD));
    assert_eq!(parse_file_type_from_bytes(b"\0\0\0\x18ftypheic"), Ok(Extension::HEIF));
    assert_eq!(parse_file_type_from_bytes(b"RIFF\0\0\0\0WEBPVP8 "), Ok(Extension::WEBP));
    assert_eq!(parse_file_type_from_bytes(b"\xff\x0arest"), Ok(Extension::JXL));
}

#[test]
fn unknown_content_gives_the_decoder_diagnostic() {
    assert_eq!(
        parse_file_type_from_bytes(b"plain text, no image"),
        Err(library_error("Could not decode image"))
    );
    assert_eq!(parse_file_type_from_bytes(b""), Err(library_error("Not enough data")));
    assert_eq!(parse_file_type_from_bytes(b"x"), Err(library_error("Not enough data")));
}

#[test]
fn dimensions_are_read_from_the_header() {
    assert_eq!(parse_dimension_from_bytes(&png(800, 600)), Ok((800, 600)));
    assert_eq!(parse_dimension_from_bytes(&gif(320, 200)), Ok((320, 200)));
    assert_eq!(parse_dimension_from_bytes(&bmp(1024, 768)), Ok((1024, 768)));
    assert_eq!(parse_dimension_from_bytes(&jpeg(1920, 1080)), Ok((1920, 1080)));
    assert_eq!(parse_dimension_from_bytes(&png(u32::MAX, 1)), Ok((u32::MAX, 1)));
}

#[test]
fn dimensions_of_a_cut_header_are_an_error() {
    let cut = &png(800, 600)[..18];
    assert_eq!(parse_file_type_from_bytes(cut), Ok(Extension::PNG));
    assert!(matches!(
        parse_dimension_from_bytes(cut),
        Err(FileParseError::LibraryParseError { .. })
    ));
    assert!(matches!(
        parse_dimension_from_bytes(b"short"),
        Err(FileParseError::LibraryParseError { .. })
    ));
    assert_eq!(
        parse_dimension_from_bytes(b"plain text, no image"),
        Err(library_error("Could not decode image"))
    );
}

#[test]
fn dimensions_behind_the_prefix_are_not_found() {
    // A JPEG whose size marker stands after more than the prefix of filler segments.
    let mut bytes = vec![0xff, 0xd8];
    while bytes.len() <= SNIFF_PREFIX_LEN {
        bytes.extend_from_slice(&[0xff, 0xe1, 0x40, 0x00]);
        bytes.extend_from_slice(&vec![0u8; 0x4000 - 2]);
    }
    bytes.extend_from_slice(&[0xff, 0xc0, 0x00, 0x11, 0x08, 0, 10, 0, 20]);
    assert_eq!(parse_file_type_from_bytes(&bytes), Ok(Extension::JPG));
    assert!(parse_dimension_from_bytes(&bytes).is_err());
}

#[test]
fn dimensions_are_wanted_of_recognised_still_images() {
    assert!(wants_dimensions(&Ok(Extension::PNG)));
    assert!(wants_dimensions(&Ok(Extension::ICO)));
    assert!(!wants_dimensions(&Ok(Extension::MP4)));
    assert!(!wants_dimensions(&Ok(Extension::MOV)));
    assert!(!wants_dimensions(&Ok(Extension::UNKNOWN)));
    assert!(!wants_dimensions(&Err(library_error("Could not decode image"))));
}

#[test]
fn prefix_counts_as_read_when_whole_or_long_enough() {
    let failure = || Some("cut".to_string());
    assert!(FileRead { bytes: vec![], failure: None }.prefix_was_read());
    assert!(FileRead { bytes: vec![1, 2, 3], failure: None }.prefix_was_read());
    assert!(!FileRead { bytes: vec![], failure: failure() }.prefix_was_read());
    assert!(
        !FileRead { bytes: vec![0; SNIFF_PREFIX_LEN - 1], failure: failure() }.prefix_was_read()
    );
    assert!(FileRead { bytes: vec![0; SNIFF_PREFIX_LEN], failure: failure() }.prefix_was_read());
    assert!(
        FileRead { bytes: vec![0; SNIFF_PREFIX_LEN + 1], failure: failure() }.prefix_was_read()
    );
}

#[test]
fn decoder_is_supported_on_sixty_four_bits() {
    assert_eq!(decoder_is_supported(), usize::BITS == 64);
    assert!(decoder_is_supported());
}
