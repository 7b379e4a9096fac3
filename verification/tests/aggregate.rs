use chrono::NaiveDate;

use logranges::aggregate::Aggregator;
use logranges::aggregate::Range;
use logranges::compile_patterns;
use logranges::dateformat::DateFormat;
use logranges::dateformat::build_custom_format;
use logranges::timestamp::ScanError;
use logranges::timestamp::Timestamp;

fn utc_millis(y: i32, mo: u32, d: u32, h: u32, mi: u32, s: u32, ms: u32) -> i64 {
    NaiveDate::from_ymd_opt(y, mo, d)
        .unwrap()
        .and_hms_milli_opt(h, mi, s, ms)
        .unwrap()
        .and_utc()
        .timestamp_millis()
}

fn make_aggregator() -> Aggregator {
    let fmt = build_custom_format("%Y-%m-%d %T").unwrap();
    let patterns =
        compile_patterns(&vec!["ERROR".to_string(), "WARN".to_string()]).unwrap();
    Aggregator::new(fmt, patterns)
}

fn feed(agg: &mut Aggregator, line: &str) -> Option<Range> {
    agg.process_line(line).unwrap()
}

#[test]
fn one_range_for_matches_within_tolerance() {
    let mut agg = make_aggregator();
    assert_eq!(None, feed(&mut agg, "2020-01-01 10:00:00 ERROR first"));
    assert_eq!(None, feed(&mut agg, "2020-01-01 10:02:30 ERROR second"));
    assert_eq!(None, feed(&mut agg, "2020-01-01 10:05:00 ERROR third"));
    let r = agg.finish().unwrap();
    assert_eq!(utc_millis(2020, 1, 1, 10, 0, 0, 0), r.start.millis);
    assert_eq!(utc_millis(2020, 1, 1, 10, 5, 0, 0), r.end.millis);
    assert_eq!(0, r.pattern_index);
    assert_eq!(3, r.match_count);
}

#[test]
fn gap_beyond_tolerance_splits_ranges() {
    let mut agg = make_aggregator();
    assert_eq!(None, feed(&mut agg, "2020-01-01 10:00:00 ERROR first"));
    assert_eq!(None, feed(&mut agg, "2020-01-01 10:04:00 ERROR second"));
    // five minutes and one second after the open range's end
    let first = feed(&mut agg, "2020-01-01 10:09:01 ERROR after the gap").unwrap();
    assert_eq!(utc_millis(2020, 1, 1, 10, 0, 0, 0), first.start.millis);
    assert_eq!(utc_millis(2020, 1, 1, 10, 4, 0, 0), first.end.millis);
    assert_eq!(0, first.pattern_index);
    assert_eq!(2, first.match_count);
    let second = agg.finish().unwrap();
    assert_eq!(utc_millis(2020, 1, 1, 10, 9, 1, 0), second.start.millis);
    assert_eq!(utc_millis(2020, 1, 1, 10, 9, 1, 0), second.end.millis);
    assert_eq!(0, second.pattern_index);
    assert_eq!(1, second.match_count);
}

#[test]
fn gap_of_exactly_five_minutes_does_not_split() {
    let mut agg = make_aggregator();
    assert_eq!(None, feed(&mut agg, "2020-01-01 10:00:00 ERROR first"));
    assert_eq!(None, feed(&mut agg, "2020-01-01 10:05:00 ERROR second"));
    let r = agg.finish().unwrap();
    assert_eq!(2, r.match_count);
}

#[test]
fn different_pattern_closes_the_open_range() {
    let mut agg = make_aggregator();
    assert_eq!(None, feed(&mut agg, "2020-01-01 10:00:00 ERROR first"));
    assert_eq!(None, feed(&mut agg, "2020-01-01 10:01:00 ERROR second"));
    let closed = feed(&mut agg, "2020-01-01 10:02:00 WARN switch").unwrap();
    assert_eq!(utc_millis(2020, 1, 1, 10, 0, 0, 0), closed.start.millis);
    assert_eq!(utc_millis(2020, 1, 1, 10, 1, 0, 0), closed.end.millis);
    assert_eq!(0, closed.pattern_index);
    assert_eq!(2, closed.match_count);
    let open = agg.finish().unwrap();
    assert_eq!(utc_millis(2020, 1, 1, 10, 2, 0, 0), open.start.millis);
    assert_eq!(1, open.pattern_index);
    assert_eq!(1, open.match_count);
}

#[test]
fn open_range_is_flushed_exactly_once() {
    let mut agg = make_aggregator();
    assert_eq!(None, feed(&mut agg, "2020-01-01 10:00:00 ERROR only"));
    assert!(agg.finish().is_some());
    assert_eq!(None, agg.finish());
}

#[test]
fn finish_without_matches_flushes_nothing() {
    let mut agg = make_aggregator();
    assert_eq!(None, feed(&mut agg, "2020-01-01 10:00:00 all quiet"));
    assert_eq!(None, agg.finish());
}

#[test]
fn first_pattern_in_list_order_wins() {
    let fmt = build_custom_format("%Y-%m-%d %T").unwrap();
    let patterns =
        compile_patterns(&vec!["ERROR".to_string(), "ERR".to_string()]).unwrap();
    let mut agg = Aggregator::new(fmt, patterns);
    // both patterns match this line; position 0 is taken
    assert_eq!(None, feed(&mut agg, "2020-01-01 10:00:00 ERROR boom"));
    assert_eq!(0, agg.finish().unwrap().pattern_index);
}

#[test]
fn line_without_timestamp_extends_with_last_seen() {
    let mut agg = make_aggregator();
    assert_eq!(None, feed(&mut agg, "2020-01-01 10:00:00 ERROR first"));
    assert_eq!(None, feed(&mut agg, "ERROR continued, no timestamp"));
    let r = agg.finish().unwrap();
    assert_eq!(2, r.match_count);
    assert_eq!(utc_millis(2020, 1, 1, 10, 0, 0, 0), r.end.millis);
}

#[test]
fn matches_before_any_timestamp_are_skipped() {
    let mut agg = make_aggregator();
    assert_eq!(None, feed(&mut agg, "ERROR but no timestamp ever seen"));
    assert_eq!(None, agg.finish());
}

#[test]
fn mismatched_regex_and_strategy_is_a_fatal_inconsistency() {
    // a handle whose regex matches text its strategy cannot parse
    let broken = DateFormat {
        fmt: build_custom_format("%Y-%m-%d %T").unwrap().fmt,
        strategy: build_custom_format("%Y-%m-%d %T").unwrap().strategy,
        regex: build_custom_format("%b %d %T").unwrap().regex,
    };
    let patterns = compile_patterns(&vec!["ERROR".to_string()]).unwrap();
    let mut agg = Aggregator::new(broken, patterns);
    assert_eq!(
        Err(ScanError::InternalParseInconsistency),
        agg.process_line("Apr 26 10:05:02 ERROR mismatch")
    );
}

#[test]
fn offsets_are_converted_to_utc_in_ranges() {
    let fmt = build_custom_format("%Y-%m-%d %T %z").unwrap();
    let patterns = compile_patterns(&vec!["ERROR".to_string()]).unwrap();
    let mut agg = Aggregator::new(fmt, patterns);
    assert_eq!(None, feed(&mut agg, "2019-12-26 17:12:31 +0200 ERROR x"));
    let r = agg.finish().unwrap();
    assert_eq!(Timestamp { millis: utc_millis(2019, 12, 26, 15, 12, 31, 0) }, r.start);
}

#[test]
fn scan_lines_reports_all_ranges_in_order() {
    let fmt = build_custom_format("%Y-%m-%d %T").unwrap();
    let patterns =
        compile_patterns(&vec!["ERROR".to_string(), "WARN".to_string()]).unwrap();
    let lines: Vec<String> = vec![
        "2020-01-01 10:00:00 ERROR one".to_string(),
        "2020-01-01 10:01:00 ERROR two".to_string(),
        "2020-01-01 10:02:00 WARN switch".to_string(),
        "2020-01-01 10:20:00 WARN far away".to_string(),
    ];
    let ranges = logranges::aggregate::scan_lines_with_year(fmt, patterns, &lines, 2020).unwrap();
    assert_eq!(3, ranges.len());
    assert_eq!(0, ranges[0].pattern_index);
    assert_eq!(2, ranges[0].match_count);
    assert_eq!(utc_millis(2020, 1, 1, 10, 1, 0, 0), ranges[0].end.millis);
    assert_eq!(1, ranges[1].pattern_index);
    assert_eq!(1, ranges[1].match_count);
    assert_eq!(utc_millis(2020, 1, 1, 10, 2, 0, 0), ranges[1].start.millis);
    assert_eq!(1, ranges[2].pattern_index);
    assert_eq!(utc_millis(2020, 1, 1, 10, 20, 0, 0), ranges[2].start.millis);
}
