use squirrel::block_parser::file_scanner::{join_path, DirEntry, FilePair, FileScanner};

fn file(name: &str) -> DirEntry {
    DirEntry { name: name.to_string(), is_file: true }
}

fn dir(name: &str) -> DirEntry {
    DirEntry { name: name.to_string(), is_file: false }
}

fn prefixes(pairs: &[FilePair]) -> Vec<String> {
    pairs.iter().map(|p| p.prefix.clone()).collect()
}

#[test]
fn test_file_scanner_basic_functionality() {
    let scanner = FileScanner::new("/data".to_string());

    let result = scanner.scan_available_files(&vec![]);
    assert_eq!(result.len(), 0);

    let listing = vec![
        file("100_200.meta"),
        file("100_200.bin"),
        file("300_400.meta"),
        file("300_400.bin"),
    ];
    let result = scanner.scan_available_files(&listing);
    assert_eq!(result.len(), 2);
    assert_eq!(result[0].prefix, "300_400");
    assert_eq!(result[1].prefix, "100_200");
    assert_eq!(result[0].meta_path, "/data/300_400.meta");
    assert_eq!(result[0].bin_path, "/data/300_400.bin");
}

#[test]
fn test_file_scanner_incomplete_pairs() {
    let scanner = FileScanner::new("/data".to_string());
    let listing = vec![
        file("500_600.meta"),
        file("700_800.bin"),
        file("900_1000.meta"),
        file("900_1000.bin"),
    ];
    let result = scanner.scan_available_files(&listing);
    assert_eq!(result.len(), 1);
    assert_eq!(result[0].prefix, "900_1000");
}

#[test]
fn test_file_scanner_invalid_filenames() {
    let scanner = FileScanner::new("/data".to_string());
    let listing = vec![
        file("invalid.txt"),
        file("no_extension"),
        file("wrong.extension"),
        file(".meta"),
        file(".bin"),
        file("valid_123.meta"),
        file("valid_123.bin"),
    ];
    let result = scanner.scan_available_files(&listing);

    // Both files of `valid_123` are there, but its start is no number: it
    // names no unit.
    assert_eq!(result.len(), 0);
}

#[test]
fn test_prefix_without_start_slot_is_not_selected() {
    let scanner = FileScanner::new("/data".to_string());
    let listing = vec![
        file("valid_123.meta"),
        file("valid_123.bin"),
        file("abc.meta"),
        file("abc.bin"),
        file("7_8.meta"),
        file("7_8.bin"),
    ];
    assert_eq!(prefixes(&scanner.scan_available_files(&listing)), vec!["7_8"]);
}

#[test]
fn test_scanner_ordering() {
    let scanner = FileScanner::new("/archive".to_string());
    let listing = vec![
        file("100_200.meta"),
        file("100_200.bin"),
        file("300_400.meta"),
        file("300_400.bin"),
        file("700_800.bin"),
    ];
    assert_eq!(prefixes(&scanner.scan_available_files(&listing)), vec!["300_400", "100_200"]);
}

#[test]
fn test_scanner_orders_by_number_and_lists_each_unit_once() {
    let scanner = FileScanner::new("/archive".to_string());
    let listing = vec![
        file("9_10.bin"),
        file("100_200.meta"),
        file("9_10.meta"),
        file("100_200.bin"),
        file("9_10.meta"),
        file("20_30.meta"),
        file("20_30.bin"),
    ];
    assert_eq!(
        prefixes(&scanner.scan_available_files(&listing)),
        vec!["100_200", "20_30", "9_10"]
    );
}

#[test]
fn test_get_file_pair_paths() {
    let scanner = FileScanner::new("/tmp/some_dir".to_string());

    let (meta_path, bin_path) = scanner.get_file_pair_paths("test_prefix");

    let expected_meta = std::path::Path::new("/tmp/some_dir").join("test_prefix.meta");
    let expected_bin = std::path::Path::new("/tmp/some_dir").join("test_prefix.bin");
    assert_eq!(meta_path, expected_meta.to_str().unwrap());
    assert_eq!(bin_path, expected_bin.to_str().unwrap());
    assert_eq!(meta_path, "/tmp/some_dir/test_prefix.meta");
}

#[test]
fn test_join_path_agrees_with_the_standard_join() {
    let cases = [
        ("/a/b", "c.meta"),
        ("/a/b/", "c.meta"),
        ("", "c.meta"),
        ("/a", "/root.meta"),
        ("rel", "x"),
        ("/", "x"),
    ];
    for (dir, name) in cases {
        let expected = std::path::Path::new(dir).join(name);
        assert_eq!(join_path(dir, name), expected.to_str().unwrap());
    }
}

#[test]
fn test_has_complete_file_pair_edge_cases() {
    let scanner = FileScanner::new("/data".to_string());
    let listing = vec![dir("dir_test.meta"), dir("dir_test.bin"), file("ok.meta"), file("ok.bin")];
    assert!(!scanner.has_complete_file_pair("nonexistent", &listing));
    assert!(!scanner.has_complete_file_pair("dir_test", &listing));
    assert!(scanner.has_complete_file_pair("ok", &listing));
    assert!(!scanner.has_complete_file_pair("ok", &vec![file("ok.meta")]));
}

#[test]
fn test_directories_are_not_units() {
    let scanner = FileScanner::new("/data".to_string());
    let listing = vec![dir("1_2.meta"), file("1_2.bin"), file("3_4.meta"), dir("3_4.bin")];
    assert_eq!(scanner.scan_available_files(&listing).len(), 0);
}

#[test]
fn test_extract_prefix_from_filename() {
    let scanner = FileScanner::new("/data".to_string());
    assert_eq!(scanner.extract_prefix_from_filename("123_456.meta"), Some("123_456".to_string()));
    assert_eq!(scanner.extract_prefix_from_filename("123_456.bin"), Some("123_456".to_string()));
    assert_eq!(scanner.extract_prefix_from_filename("invalid.txt"), None);
    assert_eq!(scanner.extract_prefix_from_filename(".meta"), None);
    assert_eq!(scanner.extract_prefix_from_filename(".bin"), None);
    assert_eq!(scanner.extract_prefix_from_filename("meta"), None);
    assert_eq!(scanner.extract_prefix_from_filename("a.meta.bin"), Some("a.meta".to_string()));
}

#[test]
fn test_extract_start_slot() {
    let scanner = FileScanner::new("/data".to_string());
    assert_eq!(scanner.extract_start_slot("123_456"), Some(123));
    assert_eq!(scanner.extract_start_slot("invalid"), None);
    assert_eq!(scanner.extract_start_slot("362690000_362694999"), Some(362690000));
    assert_eq!(scanner.extract_start_slot("42"), Some(42));
    assert_eq!(scanner.extract_start_slot("_42"), None);
    assert_eq!(scanner.extract_start_slot(""), None);
    assert_eq!(scanner.extract_start_slot("+7_8"), Some(7));
    assert_eq!(scanner.extract_start_slot("-7_8"), None);
    assert_eq!(scanner.extract_start_slot("007_8"), Some(7));
    assert_eq!(scanner.extract_start_slot("18446744073709551615_1"), Some(u64::MAX));
    assert_eq!(scanner.extract_start_slot("18446744073709551616_1"), None);
    for text in ["0", "+", "++1", "1 ", " 1", "12a", "99999999999999999999999"] {
        assert_eq!(scanner.extract_start_slot(text), text.parse::<u64>().ok());
    }
}

#[test]
fn test_sort_places_invalid_prefix_as_slot_zero() {
    let pair = |prefix: &str| FilePair {
        prefix: prefix.to_string(),
        meta_path: format!("/d/{}.meta", prefix),
        bin_path: format!("/d/{}.bin", prefix),
    };
    let sorted = FileScanner::sort_by_start_slot(vec![
        pair("5_6"),
        pair("bad_1"),
        pair("100_200"),
        pair("1_2"),
    ]);
    assert_eq!(prefixes(&sorted), vec!["100_200", "5_6", "1_2", "bad_1"]);
    assert_eq!(sorted[3], pair("bad_1"));
    let sorted = FileScanner::sort_by_start_slot(vec![pair("bad"), pair("0_1"), pair("3_4")]);
    assert_eq!(sorted[0].prefix, "3_4");
    assert_eq!(sorted.len(), 3);
}
