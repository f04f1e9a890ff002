use anon_csv::anon::{anonymise, rewrite_all, validated, Anonymiser, RewriteInfo};
use anon_csv::columns::{missing_column, ordered};
use anon_csv::directive::Spec;
use anon_csv::error::AnonError;
use anon_csv::faker::FakerKind;
use anon_csv::kind::{InternetKind, NameKind, NumberKind};
use anon_csv::memo::Memo;
use anon_csv::record::push_fields;
use anon_csv::splice::splice;
use csv::StringRecord;

fn record(cells: &[&str]) -> StringRecord {
    let mut r = StringRecord::new();
    for c in cells {
        r.push_field(c);
    }
    r
}

fn cells(r: &StringRecord) -> Vec<String> {
    r.iter().map(|c| c.to_string()).collect()
}

fn spec(column: usize, kind: FakerKind) -> Spec {
    Spec { column, kind }
}

fn digit(column: usize) -> Spec {
    spec(column, FakerKind::Number(NumberKind::Digit))
}

#[test]
fn end_to_end_example() {
    let rows = vec![record(&["1", "a@x.com", "NYC"]), record(&["2", "b@y.com", "LA"])];
    let specs = vec![Spec::from_str("1:internet.safe_email").unwrap()];
    let (out, info) = anonymise(&rows, &specs, false).unwrap();
    assert_eq!(out.len(), 2);
    assert_eq!(out[0].len(), 3);
    assert_eq!(out[1].len(), 3);
    assert_eq!(&out[0][0], "1");
    assert_eq!(&out[0][2], "NYC");
    assert_eq!(&out[1][0], "2");
    assert_eq!(&out[1][2], "LA");
    assert!(out[0][1].contains('@'));
    assert!(out[1][1].contains('@'));
    assert!(out[0][1].contains("@example."));
    assert_eq!(info, RewriteInfo { rows: 2, cells: 2 });
}

#[test]
fn end_to_end_duplicate_value_example() {
    let rows = vec![record(&["x", "A"]), record(&["y", "A"])];
    let specs = vec![Spec::from_str("1:name.first_name").unwrap()];
    let (out, info) = anonymise(&rows, &specs, true).unwrap();
    assert_eq!(&out[0][0], "x");
    assert_eq!(&out[1][0], "y");
    assert_eq!(&out[0][1], &out[1][1]);
    assert_eq!(info, RewriteInfo { rows: 2, cells: 2 });
}

#[test]
fn memo_is_shared_across_columns() {
    let rows = vec![
        record(&["same", "other", "same"]),
        record(&["other", "same", "third"]),
    ];
    let specs = vec![
        spec(0, FakerKind::Internet(InternetKind::Ipv6)),
        spec(2, FakerKind::Name(NameKind::Name)),
    ];
    let (out, info) = anonymise(&rows, &specs, true).unwrap();
    assert_eq!(&out[0][0], &out[0][2]);
    assert_eq!(&out[0][1], "other");
    assert_eq!(&out[1][1], "same");
    assert_eq!(out[0][0].matches(':').count(), 7);
    assert_eq!(info, RewriteInfo { rows: 2, cells: 4 });
}

#[test]
fn memo_off_generates_independently() {
    let rows: Vec<StringRecord> = (0..40).map(|_| record(&["A"])).collect();
    let specs = vec![spec(0, FakerKind::Internet(InternetKind::Ipv6))];
    let (out, info) = anonymise(&rows, &specs, false).unwrap();
    let first = out[0][0].to_string();
    assert!(out.iter().any(|r| &r[0] != first.as_str()));
    assert_eq!(info, RewriteInfo { rows: 40, cells: 40 });
    let (out, _) = anonymise(&rows, &specs, true).unwrap();
    let first = out[0][0].to_string();
    assert!(out.iter().all(|r| &r[0] == first.as_str()));
}

#[test]
fn duplicate_columns_are_rejected() {
    let specs = vec![digit(2), spec(2, FakerKind::Boolean)];
    assert_eq!(validated(&specs), Err(AnonError::DuplicateColumns(1)));
    let rows = vec![record(&["a", "b", "c"])];
    assert_eq!(anonymise(&rows, &specs, false), Err(AnonError::DuplicateColumns(1)));
    assert!(matches!(Anonymiser::new(&specs, true), Err(AnonError::DuplicateColumns(1))));
}

#[test]
fn duplicate_count_is_directives_minus_distinct_columns() {
    let specs = vec![digit(2), digit(0), digit(2), digit(2), digit(0), digit(7)];
    assert_eq!(validated(&specs), Err(AnonError::DuplicateColumns(3)));
    let specs = vec![digit(5), digit(5), digit(5)];
    assert_eq!(validated(&specs), Err(AnonError::DuplicateColumns(2)));
}

#[test]
fn valid_sets_come_back_unchanged() {
    let specs = vec![digit(3), digit(0), spec(1, FakerKind::Boolean)];
    assert_eq!(validated(&specs), Ok(&specs[..]));
    let none: Vec<Spec> = vec![];
    assert_eq!(validated(&none), Ok(&none[..]));
}

#[test]
fn duplicates_are_found_before_any_row_is_read() {
    let specs = vec![digit(9), digit(9)];
    let rows = vec![record(&["too", "narrow"])];
    assert_eq!(anonymise(&rows, &specs, false), Err(AnonError::DuplicateColumns(1)));
}

#[test]
fn range_failure_at_second_row() {
    let rows = vec![
        record(&["a", "b", "c"]),
        record(&["d", "e"]),
        record(&["f", "g", "h"]),
    ];
    let specs = vec![digit(2)];
    assert_eq!(
        anonymise(&rows, &specs, false),
        Err(AnonError::ColumnOutOfRange { column: 2, width: 2 })
    );
    let mut engine = Anonymiser::new(&specs, false).unwrap();
    let first = engine.rewrite(&rows[0]).unwrap();
    assert_eq!(first.len(), 3);
    assert_eq!(&first[0], "a");
    assert_eq!(&first[1], "b");
    assert_eq!(engine.info(), RewriteInfo { rows: 1, cells: 1 });
    assert_eq!(
        engine.rewrite(&rows[1]),
        Err(AnonError::ColumnOutOfRange { column: 2, width: 2 })
    );
    assert_eq!(engine.info(), RewriteInfo { rows: 2, cells: 1 });
}

#[test]
fn range_failure_names_leftmost_missing_column() {
    let rows = vec![record(&["a", "b"])];
    let specs = vec![digit(9), digit(0), digit(4), digit(1)];
    assert_eq!(
        anonymise(&rows, &specs, true),
        Err(AnonError::ColumnOutOfRange { column: 4, width: 2 })
    );
    let sorted = ordered(&specs);
    assert_eq!(missing_column(&sorted, 2), Some(4));
    assert_eq!(missing_column(&sorted, 4), Some(4));
    assert_eq!(missing_column(&sorted, 5), Some(9));
    assert_eq!(missing_column(&sorted, 10), None);
}

#[test]
fn empty_record_with_directive_is_out_of_range() {
    let rows = vec![StringRecord::new()];
    assert_eq!(
        anonymise(&rows, &[digit(0)], false),
        Err(AnonError::ColumnOutOfRange { column: 0, width: 0 })
    );
}

#[test]
fn untouched_columns_are_preserved() {
    let rows = vec![
        record(&["a", "", "c,\"quoted\"", "d\nline", "é"]),
        record(&["only", "five", "cells", "in", "here", "and more"]),
    ];
    let specs = vec![digit(3), digit(1)];
    let (out, info) = anonymise(&rows, &specs, false).unwrap();
    assert_eq!(out[0].len(), 5);
    assert_eq!(out[1].len(), 6);
    for (input, output) in rows.iter().zip(out.iter()) {
        for c in 0..input.len() {
            if c != 1 && c != 3 {
                assert_eq!(&input[c], &output[c]);
            } else {
                assert_eq!(output[c].len(), 1);
                assert!(output[c].chars().all(|d| d.is_ascii_digit()));
            }
        }
    }
    assert_eq!(info, RewriteInfo { rows: 2, cells: 4 });
}

#[test]
fn no_directives_copies_everything() {
    let rows = vec![record(&["a", "b"]), StringRecord::new(), record(&["c"])];
    let (out, info) = anonymise(&rows, &[], true).unwrap();
    assert_eq!(out, rows);
    assert_eq!(info, RewriteInfo { rows: 3, cells: 0 });
}

#[test]
fn no_records_gives_no_output() {
    let (out, info) = anonymise(&vec![], &[digit(3)], false).unwrap();
    assert!(out.is_empty());
    assert_eq!(info, RewriteInfo::default());
    assert_eq!(RewriteInfo::default(), RewriteInfo { rows: 0, cells: 0 });
}

#[test]
fn every_column_may_be_targeted() {
    let rows = vec![record(&["a", "b", "c"])];
    let specs = vec![digit(2), digit(0), digit(1)];
    let (out, info) = anonymise(&rows, &specs, false).unwrap();
    assert_eq!(out[0].len(), 3);
    assert!(out[0].iter().all(|c| c.len() == 1 && c.chars().all(|d| d.is_ascii_digit())));
    assert_eq!(info, RewriteInfo { rows: 1, cells: 3 });
}

#[test]
fn ordered_sorts_by_column() {
    let specs = vec![digit(5), spec(0, FakerKind::Boolean), digit(3)];
    let sorted = ordered(&specs);
    assert_eq!(sorted, vec![spec(0, FakerKind::Boolean), digit(3), digit(5)]);
    assert_eq!(ordered(&[]), vec![]);
}

#[test]
fn splice_writes_values_at_their_columns() {
    let input = record(&["a", "b", "c", "d", "e"]);
    let specs = vec![digit(1), digit(2), digit(4)];
    let values = vec!["X".to_string(), "".to_string(), "Z z".to_string()];
    let out = splice(&input, &specs, &values);
    assert_eq!(cells(&out), vec!["a", "X", "", "d", "Z z"]);
    let out = splice(&input, &vec![], &vec![]);
    assert_eq!(out, input);
    let out = splice(&input, &vec![digit(0)], &vec!["first".to_string()]);
    assert_eq!(cells(&out), vec!["first", "b", "c", "d", "e"]);
}

#[test]
fn push_fields_copies_a_range() {
    let source = record(&["a", "b", "c", "d"]);
    let mut target = record(&["x"]);
    push_fields(&mut target, &source, 1, 3);
    assert_eq!(cells(&target), vec!["x", "b", "c"]);
    push_fields(&mut target, &source, 2, 2);
    assert_eq!(cells(&target), vec!["x", "b", "c"]);
}

#[test]
fn engine_counts_monotonically() {
    let specs = vec![digit(0), digit(1)];
    let mut engine = Anonymiser::new(&specs, true).unwrap();
    assert_eq!(engine.info(), RewriteInfo { rows: 0, cells: 0 });
    let a = engine.rewrite(&record(&["p", "q", "r"])).unwrap();
    assert_eq!(engine.info(), RewriteInfo { rows: 1, cells: 2 });
    let b = engine.rewrite(&record(&["q", "p"])).unwrap();
    assert_eq!(engine.info(), RewriteInfo { rows: 2, cells: 4 });
    assert_eq!(&a[0], &b[1]);
    assert_eq!(&a[1], &b[0]);
    assert_eq!(&a[2], "r");
    assert!(engine.rewrite(&record(&["q"])).is_err());
    assert_eq!(engine.info(), RewriteInfo { rows: 3, cells: 4 });
    let c = engine.rewrite(&record(&["p", "zz"])).unwrap();
    assert_eq!(&c[0], &a[0]);
}

#[test]
fn memo_keeps_first_replacement() {
    let mut memo = Memo::new();
    assert_eq!(memo.get("a"), None);
    memo.insert("a".to_string(), "1".to_string());
    memo.insert("".to_string(), "empty".to_string());
    assert_eq!(memo.get("a"), Some("1".to_string()));
    assert_eq!(memo.get(""), Some("empty".to_string()));
    assert_eq!(memo.get("A"), None);
    let kept = memo.resolve("a", &FakerKind::Boolean);
    assert_eq!(kept, "1");
    let fresh = memo.resolve("b", &FakerKind::Boolean);
    assert!(fresh == "true" || fresh == "false");
    assert_eq!(memo.get("b"), Some(fresh.clone()));
    assert_eq!(memo.resolve("b", &FakerKind::Number(NumberKind::Digit)), fresh);
}

#[test]
fn rewrite_all_gives_the_records_without_counting() {
    let rows = vec![record(&["k", "same", "x"]), record(&["same", "l", "y"])];
    let specs = vec![digit(1), digit(0)];
    let out = rewrite_all(&rows, &specs, true).unwrap();
    assert_eq!(out.len(), 2);
    assert_eq!(&out[0][2], "x");
    assert_eq!(&out[1][2], "y");
    assert_eq!(&out[0][1], &out[1][0]);
    assert_eq!(
        rewrite_all(&rows, &[digit(3)], false),
        Err(AnonError::ColumnOutOfRange { column: 3, width: 3 })
    );
    assert_eq!(
        rewrite_all(&rows, &[digit(0), digit(0)], false),
        Err(AnonError::DuplicateColumns(1))
    );
}

#[test]
fn transform_leaves_the_counters_alone() {
    let mut engine = Anonymiser::new(&[digit(0)], false).unwrap();
    let out = engine.transform(&record(&["a", "b"])).unwrap();
    assert_eq!(out.len(), 2);
    assert_eq!(&out[1], "b");
    assert_eq!(out[0].len(), 1);
    assert_eq!(engine.info(), RewriteInfo { rows: 0, cells: 0 });
    assert_eq!(
        engine.transform(&StringRecord::new()),
        Err(AnonError::ColumnOutOfRange { column: 0, width: 0 })
    );
    assert_eq!(engine.info(), RewriteInfo { rows: 0, cells: 0 });
}
