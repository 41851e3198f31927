use bmp2png::filter::{accepts, EntryKind, FileEntry};
use bmp2png::naming::{file_stem, has_source_extension, output_name, output_path, OUTPUT_DIRECTORY};

fn entry(name: &str, kind: EntryKind) -> FileEntry {
    FileEntry { path: format!("./{}", name), name: name.to_string(), kind }
}

#[test]
fn bitmap_names_end_in_the_suffix() {
    assert!(has_source_extension("a.bmp"));
    assert!(has_source_extension("photo.2024.bmp"));
    assert!(has_source_extension("with space.bmp"));
    assert!(has_source_extension(".bmp"));
    assert!(has_source_extension("\u{e9}t\u{e9}.bmp"));
}

#[test]
fn other_names_are_no_bitmap_names() {
    assert!(!has_source_extension(""));
    assert!(!has_source_extension("bmp"));
    assert!(!has_source_extension("abmp"));
    assert!(!has_source_extension("a.png"));
    assert!(!has_source_extension("a.bmp.txt"));
    assert!(!has_source_extension("a.bmp "));
    assert!(!has_source_extension("a.bm"));
}

#[test]
fn matching_is_case_sensitive() {
    assert!(!has_source_extension("a.BMP"));
    assert!(!has_source_extension("a.Bmp"));
    assert!(!has_source_extension("a.bmP"));
}

#[test]
fn stem_is_what_stands_before_the_last_dot() {
    assert_eq!(file_stem("a.bmp"), "a");
    assert_eq!(file_stem("a.b.bmp"), "a.b");
    assert_eq!(file_stem("archive.tar.gz"), "archive.tar");
    assert_eq!(file_stem("trailing."), "trailing");
}

#[test]
fn stem_of_a_name_without_extension_is_the_name() {
    assert_eq!(file_stem("README"), "README");
    assert_eq!(file_stem(""), "");
    assert_eq!(file_stem(".hidden"), ".hidden");
    assert_eq!(file_stem("."), ".");
}

#[test]
fn stem_keeps_a_leading_dot_before_a_later_one() {
    assert_eq!(file_stem(".hidden.bmp"), ".hidden");
    assert_eq!(file_stem("..bmp"), ".");
}

#[test]
fn stem_counts_characters_not_bytes() {
    assert_eq!(file_stem("\u{e9}t\u{e9}.bmp"), "\u{e9}t\u{e9}");
    assert_eq!(file_stem("\u{1f600}.x.bmp"), "\u{1f600}.x");
}

#[test]
fn output_name_swaps_the_extension() {
    assert_eq!(output_name("a.bmp"), "a.png");
    assert_eq!(output_name("a.b.bmp"), "a.b.png");
    assert_eq!(output_name("c.bmp"), "c.png");
}

#[test]
fn output_name_of_unusual_names() {
    assert_eq!(output_name("README"), "README.png");
    assert_eq!(output_name(".bmp"), ".bmp.png");
    assert_eq!(output_name("a."), "a.png");
    assert_eq!(output_name(""), ".png");
}

#[test]
fn output_name_agrees_with_the_standard_library() {
    let names = ["a.bmp", "a.b.bmp", "README", ".bmp", "a.", ".hidden.bmp", "x.y.z", "a..bmp"];
    for name in names {
        let expected = std::path::Path::new(name).with_extension("png");
        assert_eq!(output_name(name), expected.to_string_lossy(), "{}", name);
    }
}

#[test]
fn output_path_is_below_the_directory() {
    assert_eq!(output_path("./converted", "a.bmp"), "./converted/a.png");
    assert_eq!(output_path("out", "sub.dir.bmp"), "out/sub.dir.png");
}

#[test]
fn output_path_drops_the_source_directory() {
    let first = output_path("./converted", "c.bmp");
    let second = output_path("./converted", "c.bmp");
    assert_eq!(first, "./converted/c.png");
    assert_eq!(first, second);
}

#[test]
fn output_directory_is_named_converted() {
    assert_eq!(OUTPUT_DIRECTORY, "converted");
}

#[test]
fn regular_bitmap_files_are_accepted() {
    assert!(accepts(&entry("a.bmp", EntryKind::Regular)));
    assert!(accepts(&entry("b.c.bmp", EntryKind::Regular)));
}

#[test]
fn files_without_the_extension_are_not_accepted() {
    assert!(!accepts(&entry("a.png", EntryKind::Regular)));
    assert!(!accepts(&entry("a.BMP", EntryKind::Regular)));
    assert!(!accepts(&entry("bmp", EntryKind::Regular)));
}

#[test]
fn directories_and_other_entries_are_not_accepted() {
    assert!(!accepts(&entry("dir.bmp", EntryKind::Directory)));
    assert!(!accepts(&entry("link.bmp", EntryKind::Other)));
    assert!(!accepts(&entry("sub", EntryKind::Directory)));
}

#[test]
fn acceptance_goes_by_the_name_not_the_path() {
    let inside = FileEntry {
        path: "./pictures.bmp/readme".to_string(),
        name: "readme".to_string(),
        kind: EntryKind::Regular,
    };
    assert!(!accepts(&inside));
}
