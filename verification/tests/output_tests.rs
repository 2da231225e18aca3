use timetable_crawler::canon::canonicalize_str;
use timetable_crawler::output::{format_record, format_school_id, render_records};

#[test]
fn formats_positive_school_id() {
    assert_eq!(format_school_id(0), "0");
    assert_eq!(format_school_id(7), "7");
    assert_eq!(format_school_id(123456), "123456");
    assert_eq!(format_school_id(i32::MAX), "2147483647");
}

#[test]
fn formats_negative_school_id() {
    assert_eq!(format_school_id(-1), "-1");
    assert_eq!(format_school_id(-99), "-99");
    assert_eq!(format_school_id(i32::MIN), "-2147483648");
}

#[test]
fn formats_one_record_per_line() {
    let url = canonicalize_str("http://a.example/").unwrap();
    assert_eq!(format_record(1, &url), "1|http://a.example/\n");
}

#[test]
fn record_holds_exactly_one_newline() {
    let url = canonicalize_str("http://www.a.example/plan?x=1").unwrap();
    let line = format_record(42, &url);
    assert_eq!(line, "42|http://a.example/plan?x=1\n");
    assert_eq!(line.matches('\n').count(), 1);
    assert!(line.ends_with('\n'));
}

#[test]
fn renders_records_in_order() {
    let urls = vec![
        canonicalize_str("http://a.example/one").unwrap(),
        canonicalize_str("http://a.example/two").unwrap(),
    ];
    let lines = render_records(5, &urls);
    assert_eq!(lines, vec!["5|http://a.example/one\n", "5|http://a.example/two\n"]);
}

#[test]
fn renders_nothing_for_no_candidates() {
    let lines = render_records(5, &Vec::new());
    assert!(lines.is_empty());
}
