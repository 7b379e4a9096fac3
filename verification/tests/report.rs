use chrono::NaiveDate;

use logranges::ConfigError;
use logranges::aggregate::Range;
use logranges::compile_patterns;
use logranges::report::render_preview;
use logranges::report::render_range;
use logranges::timestamp::Timestamp;
use logranges::timestamp::format_timestamp;

fn utc_millis(y: i32, mo: u32, d: u32, h: u32, mi: u32, s: u32, ms: u32) -> i64 {
    NaiveDate::from_ymd_opt(y, mo, d)
        .unwrap()
        .and_hms_milli_opt(h, mi, s, ms)
        .unwrap()
        .and_utc()
        .timestamp_millis()
}

#[test]
fn renders_a_closed_range() {
    let r = Range {
        start: Timestamp { millis: utc_millis(2019, 12, 26, 15, 12, 31, 0) },
        end: Timestamp { millis: utc_millis(2019, 12, 26, 17, 0, 5, 0) },
        pattern_index: 0,
        match_count: 42,
    };
    assert_eq!(
        "2019-12-26 15:12:31 -> 2019-12-26 17:00:05: [ERROR] 42 matches",
        render_range(&r, "ERROR").unwrap()
    );
}

#[test]
fn renders_a_preview_line() {
    let start = Timestamp { millis: utc_millis(2020, 4, 23, 0, 0, 0, 1) };
    assert_eq!(
        "2020-04-23 00:00:00 -> ? [WARN] -- ongoing",
        render_preview(start, "WARN").unwrap()
    );
}

#[test]
fn formats_timestamps_as_utc() {
    assert_eq!(
        "1970-01-01 00:00:00",
        format_timestamp(Timestamp { millis: 0 }).unwrap()
    );
    assert_eq!(
        "1969-12-31 23:59:59",
        format_timestamp(Timestamp { millis: -1000 }).unwrap()
    );
}

#[test]
fn unrepresentable_instants_render_nothing() {
    assert!(format_timestamp(Timestamp { millis: i64::MAX }).is_none());
    let r = Range {
        start: Timestamp { millis: i64::MAX },
        end: Timestamp { millis: i64::MAX },
        pattern_index: 0,
        match_count: 1,
    };
    assert!(render_range(&r, "ERROR").is_none());
}

#[test]
fn empty_pattern_list_is_a_configuration_error() {
    let patterns: Vec<String> = vec![];
    assert_eq!(Some(ConfigError::NoPatterns), compile_patterns(&patterns).err());
}

#[test]
fn invalid_pattern_is_a_configuration_error() {
    let patterns = vec!["fine".to_string(), "(".to_string()];
    assert_eq!(Some(ConfigError::InvalidPattern(1)), compile_patterns(&patterns).err());
}

#[test]
fn valid_patterns_compile_in_order() {
    let patterns = vec!["a+".to_string(), "b?".to_string()];
    let compiled = compile_patterns(&patterns).unwrap();
    assert_eq!(2, compiled.len());
    assert_eq!("a+", compiled[0].pattern_str());
    assert_eq!("b?", compiled[1].pattern_str());
    assert!(compiled[0].is_match("aaa"));
    assert!(!compiled[0].is_match("zzz"));
}
