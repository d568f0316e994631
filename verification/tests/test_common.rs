use squirrel::common::async_pool::AsyncPool;
use squirrel::common::text::{
    comes_before, contains_text, decimal_text, ends_with, parse_decimal, same_text, starts_with,
    to_chars, trim_bounds,
};

#[test]
fn test_flush_pool_cap() {
    let mut pool = AsyncPool::new(3);
    for _ in 0..50 {
        pool.submit();
    }
    let mut rounds = 0;
    let mut done = 0;
    while !pool.is_drained() {
        while pool.start_next() {
            assert!(pool.active_tasks() <= 3);
        }
        assert!(pool.active_tasks() <= 3);
        // Every task of the round takes its 100 ms, then all of them end.
        rounds += 1;
        while pool.active_tasks() > 0 {
            pool.complete();
            done += 1;
        }
    }
    assert_eq!(done, 50);
    assert_eq!(rounds, 17);
    assert_eq!(pool.active_tasks(), 0);
    assert_eq!(pool.waiting_tasks(), 0);
    assert_eq!(pool.completed_tasks(), 50);
}

#[test]
fn test_pool_gives_a_permit_back() {
    let mut pool = AsyncPool::new(1);
    assert!(pool.is_drained());
    assert!(!pool.start_next());
    pool.submit();
    pool.submit();
    assert!(!pool.is_drained());
    assert!(pool.start_next());
    assert!(!pool.start_next());
    assert_eq!((pool.active_tasks(), pool.waiting_tasks()), (1, 1));
    pool.complete();
    assert!(pool.start_next());
    pool.complete();
    assert!(pool.is_drained());
    let mut none = AsyncPool::new(0);
    none.submit();
    assert!(!none.start_next());
    assert!(!none.is_drained());
}

#[test]
fn test_decimal_text() {
    for n in [0u64, 1, 9, 10, 11, 99, 100, 12345, 1_000_000_007, u32::MAX as u64, u64::MAX] {
        assert_eq!(decimal_text(n), n.to_string());
    }
}

#[test]
fn test_parse_decimal_reads_a_window() {
    let chars = to_chars("ab+123_45");
    assert_eq!(parse_decimal(&chars, 2, 6), Some(123));
    assert_eq!(parse_decimal(&chars, 3, 6), Some(123));
    assert_eq!(parse_decimal(&chars, 3, 7), None);
    assert_eq!(parse_decimal(&chars, 7, 9), Some(45));
    assert_eq!(parse_decimal(&chars, 2, 3), None);
    assert_eq!(parse_decimal(&chars, 4, 4), None);
    assert_eq!(parse_decimal(&to_chars("١٢٣"), 0, 3), None);
}

#[test]
fn test_text_comparisons() {
    assert!(same_text("héllo", "héllo"));
    assert!(!same_text("héllo", "hello"));
    assert!(!same_text("a", "ab"));
    assert!(same_text("", ""));
    let names = ["", "a", "ab", "b", "B", "é", "z", "\u{10000}", "a\u{ff}", "a\u{100}"];
    for a in names {
        for b in names {
            assert_eq!(comes_before(a, b), a < b, "{:?} {:?}", a, b);
        }
    }
    let chars = to_chars("100_200.meta");
    assert!(ends_with(&chars, ".meta"));
    assert!(ends_with(&chars, ""));
    assert!(!ends_with(&chars, ".bin"));
    assert!(!ends_with(&to_chars("eta"), ".meta"));
    assert!(starts_with(&chars, "100"));
    assert!(!starts_with(&chars, "00"));
    assert!(contains_text("banana", "nan"));
    assert!(contains_text("banana", ""));
    assert!(contains_text("banana", "banana"));
    assert!(!contains_text("banana", "bananas"));
    assert!(!contains_text("banana", "nab"));
}

#[test]
fn test_trim_bounds_agree_with_trim() {
    for text in ["", " ", "a", "  a b  ", "\t\r\nx\u{a0}", "\u{3000}y\u{2003}", "\u{200b}z", "\u{85}\u{1680}q\u{2028}\u{2029}\u{202f}\u{205f}"] {
        let chars = to_chars(text);
        let (from, to) = trim_bounds(&chars);
        let got: String = chars[from..to].iter().collect();
        assert_eq!(got, text.trim(), "{:?}", text);
    }
}
