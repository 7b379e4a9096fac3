use chrono::Datelike;
use chrono::NaiveDate;

use logranges::dateformat::DateFormat;
use logranges::dateformat::FormatError;
use logranges::dateformat::ParseStrategy;
use logranges::dateformat::build_custom_format;
use logranges::guess::guess_date_format;
use logranges::timestamp::extract_timestamp;

fn utc_millis(y: i32, mo: u32, d: u32, h: u32, mi: u32, s: u32, ms: u32) -> i64 {
    NaiveDate::from_ymd_opt(y, mo, d)
        .unwrap()
        .and_hms_milli_opt(h, mi, s, ms)
        .unwrap()
        .and_utc()
        .timestamp_millis()
}

fn current_year() -> i32 {
    chrono::Local::now().year()
}

fn test_should_guess(line: &str, expected_millis: i64) {
    let fmt = guess_date_format(line).unwrap();
    test_should_parse(&fmt, line, expected_millis);
}

fn test_should_parse(fmt: &DateFormat, line: &str, expected_millis: i64) {
    assert_eq!(true, fmt.regex.is_match(line));
    let ts = extract_timestamp(fmt, line).unwrap().unwrap();
    assert_eq!(expected_millis, ts.millis);
}

#[test]
fn should_guess_tomee() {
    test_should_guess("23-Apr-2020 00:00:00.001 INFO [EjbTimerPool - 57924] com.config.TestTimer.runTimer Starting config promotion...",
        utc_millis(2020, 4, 23, 0, 0, 0, 1),
    );
}

#[test]
fn should_guess_journalctl() {
    // the notation has no year: the current one is filled in at parse time
    test_should_guess("Apr 26 10:05:02 localhost.localdomain kernel: x86/fpu: Supporting XSAVE feature 0x010: 'MPX CSR'",
        utc_millis(current_year(), 4, 26, 10, 5, 2, 0));
}

#[test]
fn should_guess_apache() {
    test_should_guess(
        "127.0.0.1 - frank [10/Oct/2000:13:55:36 -0700] \"GET /apache_pb.gif HTTP/1.0\" 200 2326",
        utc_millis(2000, 10, 10, 20, 55, 36, 0),
    );
}

#[test]
fn should_guess_postgres() {
    // timezone names like MST are not resolved: read as UTC by policy
    test_should_guess(
        "2014-11-12 16:28:21.700 MST,,,2993,,5463ed15.bb1,1,,2014-11-12 16:28:21 MST,,0,LOG,00000,\"database system was shut down at 2014-11-12 16:28:16 MST\",,,,,,,,,\"\"\"",
        utc_millis(2014, 11, 12, 16, 28, 21, 700),
    );
}

#[test]
fn should_guess_postgres2() {
    // timezone names like CEST are not resolved: read as UTC by policy
    test_should_guess(
        "< 2020-04-21 03:31:00.486 CEST >STATEMENT:  insert into build_data_storage (build_id, metric_id, metric_value) values ($1,$2,$3)",
        utc_millis(2020, 4, 21, 3, 31, 0, 486),
    );
}

// the year-less day-month notation that prefixing tools emit
#[test]
fn should_parse_ts() {
    test_should_guess(
        "Apr 26 17:12:31 -rw-rw-r-- 1 emmanuel emmanuel 3.5K Apr 26 11:37 Cargo.lock",
        utc_millis(current_year(), 4, 26, 17, 12, 31, 0),
    );
}

#[test]
fn build_custom_fmt() {
    let fmt = build_custom_format("%Y-%m-%d %T %z").unwrap();
    test_should_parse(
        &fmt,
        "2019-12-26 17:12:31 +0200 -rw-rw-r-- 1 emmanuel emmanuel 3.5K Apr 26 11:37 Cargo.lock",
        utc_millis(2019, 12, 26, 15, 12, 31, 0),
    );
}

#[test]
fn build_custom_fmt_notz() {
    let fmt = build_custom_format("%Y-%m-%d %T").unwrap();
    test_should_parse(
        &fmt,
        "2019-12-26 17:12:31 -rw-rw-r-- 1 emmanuel emmanuel 3.5K Apr 26 11:37 Cargo.lock",
        utc_millis(2019, 12, 26, 17, 12, 31, 0),
    );
}

#[test]
fn build_custom_fmt_notz_noyear() {
    let fmt = build_custom_format("%m-%d %T").unwrap();
    test_should_parse(
        &fmt,
        "12-26 17:12:31 -rw-rw-r-- 1 emmanuel emmanuel 3.5K Apr 26 11:37 Cargo.lock",
        utc_millis(current_year(), 12, 26, 17, 12, 31, 0),
    );
}

#[test]
fn strategy_follows_directives() {
    assert_eq!(
        ParseStrategy::WithOffset,
        build_custom_format("%Y-%m-%d %T %z").unwrap().strategy
    );
    assert_eq!(
        ParseStrategy::WithOffset,
        build_custom_format("%Y-%m-%d %T %:z").unwrap().strategy
    );
    assert_eq!(ParseStrategy::NoOffset, build_custom_format("%Y-%m-%d %T").unwrap().strategy);
    assert_eq!(ParseStrategy::NoOffsetNoYear, build_custom_format("%m-%d %T").unwrap().strategy);
}

#[test]
fn noyear_format_is_year_prefixed() {
    let fmt = build_custom_format("%m-%d %T").unwrap();
    assert_eq!("%Y-%m-%d %T", fmt.fmt.as_str());
    // the regex still matches only the year-less text
    assert_eq!(
        "12-26 17:12:31",
        fmt.regex.find_first("on 12-26 17:12:31 it happened").unwrap().as_str()
    );
}

#[test]
fn unrecognized_directive_is_rejected() {
    assert_eq!(Some(FormatError::InvalidFormat), build_custom_format("%Q").err());
    assert_eq!(Some(FormatError::InvalidFormat), build_custom_format("%Y %.5f").err());
    assert!(build_custom_format("%").is_err());
}

#[test]
fn derived_pattern_text_keeps_plain_literals() {
    // literal '-' and ' ' carry no regex meaning and stay unescaped
    let fmt = build_custom_format("%Y-%m-%d %T %z").unwrap();
    assert_eq!(
        "\\d{4}-[0-1]\\d-[0-3]\\d \\d\\d:\\d\\d:\\d\\d [+-]\\d{4}",
        fmt.regex.pattern_str()
    );
}

#[test]
fn literal_characters_are_escaped() {
    // a regex metacharacter in the format matches itself, nothing more
    let fmt = build_custom_format("(%T)").unwrap();
    assert!(fmt.regex.is_match("boot (10:11:12) done"));
    assert!(!fmt.regex.is_match("boot 10:11:12 done"));
}

#[test]
fn compiling_twice_is_equivalent() {
    let a = build_custom_format("%d-%b-%Y %T%.3f").unwrap();
    let b = build_custom_format("%d-%b-%Y %T%.3f").unwrap();
    assert_eq!(a.fmt, b.fmt);
    assert_eq!(a.strategy, b.strategy);
    assert_eq!(a.regex.pattern_str(), b.regex.pattern_str());
}
