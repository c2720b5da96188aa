use media_catalog::extension::{lookup_suffix, match_extension, Extension};
use media_catalog::path::{file_name_of, find_last, suffix_of};
use media_catalog::text::{chars_of, same_as, string_of, to_ascii_lower, to_lowercase};

fn chars(s: &str) -> Vec<char> {
    s.chars().collect()
}

fn name_of(path: &str) -> Option<String> {
    file_name_of(&chars(path)).map(|v| v.into_iter().collect())
}

fn suffix(name: &str) -> Option<String> {
    suffix_of(&chars(name)).map(|v| v.into_iter().collect())
}

#[test]
fn chars_and_strings_round_trip() {
    assert_eq!(chars_of("a/b.JPG"), vec!['a', '/', 'b', '.', 'J', 'P', 'G']);
    assert_eq!(chars_of(""), Vec::<char>::new());
    assert_eq!(string_of(&['x', 'y']), "xy");
    assert_eq!(string_of(&chars_of("caf\u{e9}.png")), "caf\u{e9}.png");
}

#[test]
fn same_as_compares_every_character() {
    assert!(same_as(&chars("jpg"), "jpg"));
    assert!(!same_as(&chars("jp"), "jpg"));
    assert!(!same_as(&chars("jpgg"), "jpg"));
    assert!(!same_as(&chars("jpe"), "jpg"));
    assert!(same_as(&[], ""));
    assert!(!same_as(&[], "a"));
}

#[test]
fn lower_case_touches_ascii_capitals_only() {
    assert_eq!(to_ascii_lower('A'), 'a');
    assert_eq!(to_ascii_lower('Z'), 'z');
    assert_eq!(to_ascii_lower('a'), 'a');
    assert_eq!(to_ascii_lower('@'), '@');
    assert_eq!(to_ascii_lower('['), '[');
    assert_eq!(to_ascii_lower('\u{c9}'), '\u{c9}');
    assert_eq!(to_lowercase(&chars("JpEg1")), chars("jpeg1"));
}

#[test]
fn find_last_gives_the_last_position() {
    assert_eq!(find_last(&chars("a/b/c"), '/'), Some(3));
    assert_eq!(find_last(&chars("abc"), '/'), None);
    assert_eq!(find_last(&chars(""), '/'), None);
    assert_eq!(find_last(&chars("/"), '/'), Some(0));
}

#[test]
fn file_name_is_the_final_segment() {
    assert_eq!(name_of("/photos/2021/cat.jpg"), Some("cat.jpg".to_string()));
    assert_eq!(name_of("cat.jpg"), Some("cat.jpg".to_string()));
    assert_eq!(name_of("dir/.hidden"), Some(".hidden".to_string()));
    assert_eq!(name_of("a/..."), Some("...".to_string()));
}

#[test]
fn paths_without_a_file_name() {
    assert_eq!(name_of(""), None);
    assert_eq!(name_of("/"), None);
    assert_eq!(name_of("/photos/"), None);
    assert_eq!(name_of("/photos/.."), None);
    assert_eq!(name_of(".."), None);
    assert_eq!(name_of("."), None);
    assert_eq!(name_of("a/."), None);
}

#[test]
fn suffix_follows_the_last_dot() {
    assert_eq!(suffix("cat.jpg"), Some("jpg".to_string()));
    assert_eq!(suffix("archive.tar.gz"), Some("gz".to_string()));
    assert_eq!(suffix("cat."), Some("".to_string()));
    assert_eq!(suffix(".hidden.png"), Some("png".to_string()));
}

#[test]
fn names_without_a_suffix() {
    assert_eq!(suffix("README"), None);
    assert_eq!(suffix(".bashrc"), None);
    assert_eq!(suffix(""), None);
}

#[test]
fn suffix_table_maps_every_known_suffix() {
    assert_eq!(match_extension("jpg"), Extension::JPG);
    assert_eq!(match_extension("jpeg"), Extension::JPG);
    assert_eq!(match_extension("mp4"), Extension::MP4);
    assert_eq!(match_extension("png"), Extension::PNG);
    assert_eq!(match_extension("gif"), Extension::GIF);
    assert_eq!(match_extension("bmp"), Extension::BMP);
    assert_eq!(match_extension("tiff"), Extension::TIFF);
    assert_eq!(match_extension("tif"), Extension::TIFF);
    assert_eq!(match_extension("ico"), Extension::ICO);
    assert_eq!(match_extension("psd"), Extension::PSD);
    assert_eq!(match_extension("webp"), Extension::WEBP);
    assert_eq!(match_extension("mov"), Extension::MOV);
    assert_eq!(match_extension("heif"), Extension::HEIF);
    assert_eq!(match_extension("jxl"), Extension::JXL);
}

#[test]
fn suffix_table_ignores_case() {
    assert_eq!(match_extension("JPG"), Extension::JPG);
    assert_eq!(match_extension("Png"), Extension::PNG);
    assert_eq!(match_extension("MOV"), Extension::MOV);
    assert_eq!(match_extension("WebP"), Extension::WEBP);
}

#[test]
fn suffix_table_gives_unknown_for_the_rest() {
    assert_eq!(match_extension("txt"), Extension::UNKNOWN);
    assert_eq!(match_extension(""), Extension::UNKNOWN);
    assert_eq!(match_extension("jpg "), Extension::UNKNOWN);
    assert_eq!(match_extension("jp"), Extension::UNKNOWN);
    assert_eq!(match_extension("heic"), Extension::UNKNOWN);
    // The table holds lower-case suffixes: a capital is no entry of it.
    assert_eq!(lookup_suffix(&chars("JPG")), Extension::UNKNOWN);
    assert_eq!(lookup_suffix(&chars("jpg")), Extension::JPG);
}

#[test]
fn unknown_is_the_default_format() {
    assert_eq!(Extension::default(), Extension::UNKNOWN);
}

#[test]
fn still_image_formats_have_dimensions() {
    assert!(Extension::JPG.has_dimensions());
    assert!(Extension::PNG.has_dimensions());
    assert!(Extension::ICO.has_dimensions());
    assert!(Extension::HEIF.has_dimensions());
    assert!(!Extension::MP4.has_dimensions());
    assert!(!Extension::MOV.has_dimensions());
    assert!(!Extension::UNKNOWN.has_dimensions());
}
