//! Instants in UTC milliseconds, and extracting one from a log line with a
//! compiled `DateFormat`.
//!
//! Parsing a matched substring is done by chrono; its results are named by
//! `spec_parse_offset_millis` and `spec_parse_naive_millis`, functions of the
//! text and format alone. A format without a year directive depends on the
//! clock: the current year is fetched once per call and handed to the verified
//! logic, which prepends it to the text before the naive parse.

use vstd::prelude::*;

use crate::dateformat::DateFormat;
use crate::dateformat::ParseStrategy;
use crate::regex_api::spec_find;
use crate::strutil::spec_i64_dec;

verus! {

/// An absolute instant: non-leap milliseconds since the Unix epoch, UTC.
#[derive(Clone, Copy, Debug, PartialEq, Eq, Structural)]
pub struct Timestamp {
    pub millis: i64,
}

/// A fault while scanning lines.
#[derive(Clone, Copy, Debug, PartialEq, Eq, Structural)]
pub enum ScanError {
    /// A regex-matched substring failed its paired parser: the format's regex
    /// and strategy disagree, which is an internal defect, not bad input.
    InternalParseInconsistency,
}

/// What `chrono::DateTime::parse_from_str` (offset-aware parsing) yields for
/// the given text and format, as UTC milliseconds.
pub uninterp spec fn spec_parse_offset_millis(s: Seq<char>, fmt: Seq<char>) -> Option<i64>;

/// What `chrono::NaiveDateTime::parse_from_str` yields for the given text and
/// format, taken as UTC, in milliseconds.
pub uninterp spec fn spec_parse_naive_millis(s: Seq<char>, fmt: Seq<char>) -> Option<i64>;

/// Whether `chrono::DateTime::from_timestamp_millis` accepts `millis`, that
/// is, whether the instant is representable.
pub uninterp spec fn spec_millis_in_range(millis: i64) -> bool;

/// The `YYYY-MM-DD HH:MM:SS` UTC rendering of a representable instant.
pub uninterp spec fn spec_format_utc(millis: i64) -> Seq<char>;

/// Relies on `chrono::DateTime::parse_from_str` (a function of text and format
/// alone) and `DateTime::timestamp_millis`.
#[verifier::external_body]
fn parse_with_offset_millis(s: &str, fmt: &str) -> (r: Option<i64>)
    ensures
        r == spec_parse_offset_millis(s@, fmt@),
{
    chrono::DateTime::parse_from_str(s, fmt).ok().map(|d| d.timestamp_millis())
}

/// Relies on `chrono::NaiveDateTime::parse_from_str` (a function of text and
/// format alone), `NaiveDateTime::and_utc` and `DateTime::timestamp_millis`.
#[verifier::external_body]
fn parse_naive_utc_millis(s: &str, fmt: &str) -> (r: Option<i64>)
    ensures
        r == spec_parse_naive_millis(s@, fmt@),
{
    chrono::NaiveDateTime::parse_from_str(s, fmt).ok().map(|n| n.and_utc().timestamp_millis())
}

/// Relies on `chrono::Local::now` and `chrono::Datelike::year`: the calendar
/// year of the local clock, about which nothing further can be promised.
/// `Local::now` panics when the system clock stands before the Unix epoch,
/// so that case is tested first and answered with the epoch's year.
#[verifier::external_body]
fn current_year_impl() -> i32 {
    match std::time::SystemTime::now().duration_since(std::time::UNIX_EPOCH) {
        Ok(_) => chrono::Datelike::year(&chrono::Local::now()),
        Err(_) => 1970,
    }
}

/// The current calendar year of the local clock.
pub fn clock_year() -> i32 {
    current_year_impl()
}

/// Relies on `chrono::DateTime::from_timestamp_millis` (`Some` exactly on the
/// representable range) and on `DateTime::<Utc>::format` with
/// `"%Y-%m-%d %T"`, whose rendering depends on the instant alone.
#[verifier::external_body]
fn format_utc_impl(millis: i64) -> (r: Option<String>)
    ensures
        r is Some <==> spec_millis_in_range(millis),
        r matches Some(s) ==> s@ == spec_format_utc(millis),
{
    chrono::DateTime::from_timestamp_millis(millis).map(|d| d.format("%Y-%m-%d %T").to_string())
}

/// Renders `t` as `YYYY-MM-DD HH:MM:SS` UTC; `None` exactly when the instant
/// is not representable.
pub fn format_timestamp(t: Timestamp) -> (r: Option<String>)
    ensures
        r is Some <==> spec_millis_in_range(t.millis),
        r matches Some(s) ==> s@ == spec_format_utc(t.millis),
{
    format_utc_impl(t.millis)
}

/// What parsing the matched text `m` under `strategy` yields, where `fmt` is
/// the format to parse with and `year` is the current year for formats without
/// a year directive.
pub open spec fn spec_strategy_parse(
    strategy: ParseStrategy,
    fmt: Seq<char>,
    m: Seq<char>,
    year: i32,
) -> Option<i64> {
    match strategy {
        ParseStrategy::WithOffset => spec_parse_offset_millis(m, fmt),
        ParseStrategy::NoOffset => spec_parse_naive_millis(m, fmt),
        ParseStrategy::NoOffsetNoYear => spec_parse_naive_millis(
            spec_i64_dec(year as i64) + seq!['-'] + m,
            fmt,
        ),
    }
}

/// The timestamp a line carries under a format.
pub ghost enum TsOutcome {
    /// The format's regex found nothing: the line carries no timestamp.
    Absent,
    /// The matched substring parsed to this instant, in UTC milliseconds.
    Found(i64),
    /// The regex matched but its strategy could not parse the match.
    ParseFailed,
}

/// The outcome of looking for a timestamp in `line` under `df`, with `year`
/// the current year for formats without a year directive.
pub open spec fn spec_line_ts(df: &DateFormat, line: Seq<char>, year: i32) -> TsOutcome {
    match spec_find(df.regex@, line) {
        None => TsOutcome::Absent,
        Some(m) => match spec_strategy_parse(df.strategy, df.fmt@, m, year) {
            None => TsOutcome::ParseFailed,
            Some(ms) => TsOutcome::Found(ms),
        },
    }
}

/// Whether `r` is the extraction result that `spec_line_ts` prescribes.
pub open spec fn extract_matches(
    df: &DateFormat,
    line: Seq<char>,
    year: i32,
    r: Result<Option<Timestamp>, ScanError>,
) -> bool {
    match spec_line_ts(df, line, year) {
        TsOutcome::Absent => r == Ok::<Option<Timestamp>, ScanError>(None),
        TsOutcome::Found(ms) => r == Ok::<Option<Timestamp>, ScanError>(
            Some(Timestamp { millis: ms }),
        ),
        TsOutcome::ParseFailed => r == Err::<Option<Timestamp>, ScanError>(
            ScanError::InternalParseInconsistency,
        ),
    }
}

/// Extracts the timestamp that `df`'s regex finds in `line`, parsing it under
/// `df`'s strategy with `year` as the current year. `Ok(None)` when the line
/// carries no timestamp; an error when a matched substring fails to parse.
pub fn extract_timestamp_with_year(df: &DateFormat, line: &str, year: i32) -> (r: Result<
    Option<Timestamp>,
    ScanError,
>)
    ensures
        extract_matches(df, line@, year, r),
{
    match df.regex.find_first(line) {
        None => Ok(None),
        Some(m) => {
            let parsed: Option<i64> = match df.strategy {
                ParseStrategy::WithOffset => parse_with_offset_millis(m.as_str(), df.fmt.as_str()),
                ParseStrategy::NoOffset => parse_naive_utc_millis(m.as_str(), df.fmt.as_str()),
                ParseStrategy::NoOffsetNoYear => {
                    let mut chars = crate::strutil::i64_dec_chars(year as i64);
                    chars.push('-');
                    let mut mchars = crate::strutil::str_to_chars(m.as_str());
                    chars.append(&mut mchars);
                    let full = crate::strutil::chars_to_string(&chars);
                    proof {
                        assert(full@ =~= spec_i64_dec(year as i64) + seq!['-'] + m@);
                    }
                    parse_naive_utc_millis(full.as_str(), df.fmt.as_str())
                },
            };
            match parsed {
                None => Err(ScanError::InternalParseInconsistency),
                Some(ms) => Ok(Some(Timestamp { millis: ms })),
            }
        },
    }
}

/// Extracts the timestamp that `df`'s regex finds in `line`, reading the
/// current year from the clock for formats without a year directive.
pub fn extract_timestamp(df: &DateFormat, line: &str) -> (r: Result<Option<Timestamp>, ScanError>)
    ensures
        exists|y: i32| extract_matches(df, line@, y, r),
{
    let y = clock_year();
    let r = extract_timestamp_with_year(df, line, y);
    proof {
        assert(extract_matches(df, line@, y, r));
    }
    r
}

/// A format with neither offset nor year directives parses a found match with
/// the given year prepended, in decimal, to the matched text.
pub proof fn lemma_noyear_prepends_year(df: &DateFormat, line: Seq<char>, year: i32)
    requires
        df.strategy is NoOffsetNoYear,
        spec_find(df.regex@, line) is Some,
    ensures
        spec_line_ts(df, line, year) == (match spec_parse_naive_millis(
            spec_i64_dec(year as i64) + seq!['-'] + spec_find(df.regex@, line)->0,
            df.fmt@,
        ) {
            None => TsOutcome::ParseFailed,
            Some(ms) => TsOutcome::Found(ms),
        }),
{
}

} // verus!
