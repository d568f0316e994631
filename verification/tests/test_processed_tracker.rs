use squirrel::block_parser::processed_tracker::ProcessedTracker;

fn lines(list: &[&str]) -> Vec<String> {
    list.iter().map(|l| l.to_string()).collect()
}

#[test]
fn test_processed_tracker_persistence() {
    let mut log: Vec<String> = Vec::new();
    {
        let mut tracker1 = ProcessedTracker::new("/processed");
        log.push(tracker1.mark_as_processed("persistent_001"));
        log.push(tracker1.mark_as_processed("persistent_002"));

        assert_eq!(tracker1.processed_count(), 2);
    }
    {
        let mut tracker2 = ProcessedTracker::new("/processed");
        assert_eq!(tracker2.processed_count(), 0);

        tracker2.load_processed_list(&log);
        assert_eq!(tracker2.processed_count(), 2);
        assert!(tracker2.is_processed("persistent_001"));
        assert!(tracker2.is_processed("persistent_002"));
    }
}

#[test]
fn test_processed_tracker_empty_log_file() {
    let mut tracker = ProcessedTracker::new("/processed");
    tracker.load_processed_list(&vec![]);
    assert_eq!(tracker.processed_count(), 0);
}

#[test]
fn test_processed_tracker_corrupted_log_entries() {
    let log = lines(&[
        "# This is a comment",
        "",
        "2025-01-01T00:00:00Z,valid_001,completed",
        "invalid_line_without_commas",
        "2025-01-01T00:00:00Z,valid_002",
        "2025-01-01T00:00:00Z,failed_003,failed",
        "2025-01-01T00:00:00Z,valid_004,completed",
    ]);

    let mut tracker = ProcessedTracker::new("/processed");
    tracker.load_processed_list(&log);

    assert_eq!(tracker.processed_count(), 2);
    assert!(tracker.is_processed("valid_001"));
    assert!(tracker.is_processed("valid_004"));
    assert!(!tracker.is_processed("valid_002"));
    assert!(!tracker.is_processed("failed_003"));
}

#[test]
fn test_load_trims_lines_and_wants_three_fields() {
    let log = lines(&[
        "   2025-01-01T00:00:00Z,padded_1,completed  \r",
        "\t# 2025-01-01T00:00:00Z,commented,completed",
        "2025-01-01T00:00:00Z,four_fields,completed,extra",
        "2025-01-01T00:00:00Z,wrong_case,Completed",
        "2025-01-01T00:00:00Z,,completed",
        ",lonely,completed",
    ]);
    let mut tracker = ProcessedTracker::new("/processed");
    tracker.load_processed_list(&log);
    assert!(tracker.is_processed("padded_1"));
    assert!(!tracker.is_processed("commented"));
    assert!(!tracker.is_processed("four_fields"));
    assert!(!tracker.is_processed("wrong_case"));
    assert!(tracker.is_processed(""));
    assert!(tracker.is_processed("lonely"));
    assert_eq!(tracker.processed_count(), 3);
}

#[test]
fn test_load_forgets_what_was_known() {
    let mut tracker = ProcessedTracker::new("/processed");
    tracker.mark_as_processed("old");
    tracker.load_processed_list(&lines(&["t,new,completed"]));
    assert!(!tracker.is_processed("old"));
    assert!(tracker.is_processed("new"));
}

#[test]
fn test_get_processed_prefixes_sorted() {
    let mut tracker = ProcessedTracker::new("/processed");

    tracker.mark_as_processed("zzz_last");
    tracker.mark_as_processed("aaa_first");
    tracker.mark_as_processed("mmm_middle");

    let prefixes = tracker.get_processed_prefixes();
    assert_eq!(prefixes, vec!["aaa_first", "mmm_middle", "zzz_last"]);
}

#[test]
fn test_prefixes_are_ordered_as_strings_are() {
    let mut tracker = ProcessedTracker::new("/processed");
    let names = ["b", "a", "ab", "", "B", "é", "a\u{10000}", "a1", "10_2", "9_1", "b", "zz", "z"];
    for name in names {
        tracker.mark_as_processed(name);
    }
    let mut expected: Vec<String> = names.iter().map(|n| n.to_string()).collect();
    expected.sort();
    expected.dedup();
    assert_eq!(tracker.get_processed_prefixes(), expected);
    assert_eq!(tracker.processed_count(), expected.len());
}

#[test]
fn test_cleanup_log_functionality() {
    let mut tracker = ProcessedTracker::new("/processed");
    let mut log: Vec<String> = Vec::new();

    log.push(tracker.mark_as_processed("duplicate_001"));
    log.push(tracker.mark_as_processed("duplicate_001"));
    log.push(tracker.mark_as_processed("unique_002"));
    log.push(tracker.mark_as_processed("duplicate_001"));

    assert_eq!(tracker.processed_count(), 2);

    let cleaned = ProcessedTracker::cleanup_log(&log);
    assert_eq!(cleaned.len(), 2);

    let mut new_tracker = ProcessedTracker::new("/processed");
    new_tracker.load_processed_list(&cleaned);

    assert_eq!(new_tracker.processed_count(), 2);
    assert!(new_tracker.is_processed("duplicate_001"));
    assert!(new_tracker.is_processed("unique_002"));
}

#[test]
fn test_cleanup_log_with_nonexistent_file() {
    assert_eq!(ProcessedTracker::cleanup_log(&vec![]), Vec::<String>::new());
}

#[test]
fn test_cleanup_keeps_the_last_entry_of_each_prefix() {
    let log = lines(&[
        "# header",
        "t1,a,completed",
        "  t2,b,completed  ",
        "",
        "t3,a,failed",
        "no commas here",
        "t4,b,completed",
        "t5,c",
    ]);
    let cleaned = ProcessedTracker::cleanup_log(&log);
    assert_eq!(cleaned, lines(&["# header", "", "t3,a,failed", "t4,b,completed", "t5,c"]));
}

#[test]
fn test_mark_batch_as_processed() {
    let mut tracker = ProcessedTracker::new("/processed");

    let batch =
        vec!["batch_alpha".to_string(), "batch_beta".to_string(), "batch_gamma".to_string()];

    let log = tracker.mark_batch_as_processed(&batch);

    assert_eq!(tracker.processed_count(), 3);
    for prefix in &batch {
        assert!(tracker.is_processed(prefix));
    }

    let mut new_tracker = ProcessedTracker::new("/processed");
    new_tracker.load_processed_list(&log);

    assert_eq!(new_tracker.processed_count(), 3);
    for prefix in &batch {
        assert!(new_tracker.is_processed(prefix));
    }
    assert_eq!(log.len(), 3);
    let stamp = log[0].split(',').next().unwrap().to_string();
    for (line, prefix) in log.iter().zip(batch.iter()) {
        assert_eq!(line, &format!("{},{},completed", stamp, prefix));
    }
}

#[test]
fn test_record_line_and_timestamp() {
    assert_eq!(
        ProcessedTracker::record_line("2025-01-01T00:00:00+00:00", "100_200"),
        "2025-01-01T00:00:00+00:00,100_200,completed"
    );
    let mut tracker = ProcessedTracker::new("/processed");
    let line = tracker.mark_as_processed("100_200");
    let fields: Vec<&str> = line.split(',').collect();
    assert_eq!(fields.len(), 3);
    assert_eq!(fields[1], "100_200");
    assert_eq!(fields[2], "completed");
    assert!(chrono::DateTime::parse_from_rfc3339(fields[0]).is_ok());
    assert_eq!(tracker.mark_at("x", "T"), "T,x,completed");
}

#[test]
fn test_log_path() {
    assert_eq!(ProcessedTracker::new("/var/processed").log_path(), "/var/processed/processed_files.log");
    assert_eq!(ProcessedTracker::new("rel/").log_path(), "rel/processed_files.log");
}

#[test]
fn test_cleanup_loses_no_completion() {
    let log = lines(&[
        "# log",
        "t1,100_200,completed",
        " t2,300_400,completed ",
        "",
        "t3,100_200,completed",
        "t4,500_600,completed",
        "t5,300_400,completed",
    ]);
    let cleaned = ProcessedTracker::cleanup_log(&log);
    assert_eq!(cleaned.len(), 5);
    let mut before = ProcessedTracker::new("/p");
    before.load_processed_list(&log);
    let mut after = ProcessedTracker::new("/p");
    after.load_processed_list(&cleaned);
    assert_eq!(before.get_processed_prefixes(), after.get_processed_prefixes());
    assert_eq!(after.processed_count(), 3);
    // Cleaning what is clean changes nothing.
    assert_eq!(ProcessedTracker::cleanup_log(&cleaned), cleaned);
}

#[test]
fn test_line_first_then_note() {
    let mut tracker = ProcessedTracker::new("/processed");
    let line = ProcessedTracker::completion_line("7_8");
    assert!(line.ends_with(",7_8,completed"));
    assert!(chrono::DateTime::parse_from_rfc3339(line.split(',').next().unwrap()).is_ok());
    assert!(!tracker.is_processed("7_8"));
    tracker.insert("7_8");
    tracker.insert("7_8");
    assert!(tracker.is_processed("7_8"));
    assert_eq!(tracker.processed_count(), 1);
}
