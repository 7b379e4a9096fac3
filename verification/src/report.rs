//! Rendering range records as report lines.

use vstd::prelude::*;

use crate::aggregate::Range;
use crate::strutil::chars_to_string;
use crate::strutil::spec_u64_dec;
use crate::strutil::u64_dec_chars;
use crate::timestamp::Timestamp;
use crate::timestamp::format_timestamp;
use crate::timestamp::spec_format_utc;
use crate::timestamp::spec_millis_in_range;

verus! {

/// The report line for a closed range.
pub open spec fn spec_report_line(start: i64, end: i64, pattern: Seq<char>, count: u64) -> Seq<
    char,
> {
    spec_format_utc(start) + " -> "@ + spec_format_utc(end) + ": ["@ + pattern + "] "@
        + spec_u64_dec(count) + " matches"@
}

/// The provisional line shown while a range is still open.
pub open spec fn spec_preview_line(start: i64, pattern: Seq<char>) -> Seq<char> {
    spec_format_utc(start) + " -> ? ["@ + pattern + "] -- ongoing"@
}

/// Renders a closed range as `<start> -> <end>: [<pattern>] <count> matches`,
/// timestamps in `YYYY-MM-DD HH:MM:SS` UTC. `None` exactly when a bound is not
/// a representable instant.
pub fn render_range(range: &Range, pattern_text: &str) -> (r: Option<String>)
    ensures
        r is Some <==> spec_millis_in_range(range.start.millis) && spec_millis_in_range(
            range.end.millis,
        ),
        r matches Some(s) ==> s@ == spec_report_line(
            range.start.millis,
            range.end.millis,
            pattern_text@,
            range.match_count,
        ),
{
    let start = match format_timestamp(range.start) {
        None => {
            return None;
        },
        Some(s) => s,
    };
    let end = match format_timestamp(range.end) {
        None => {
            return None;
        },
        Some(s) => s,
    };
    let digits = u64_dec_chars(range.match_count);
    let count = chars_to_string(&digits);
    let mut out = start;
    out.append(" -> ");
    out.append(end.as_str());
    out.append(": [");
    out.append(pattern_text);
    out.append("] ");
    out.append(count.as_str());
    out.append(" matches");
    proof {
        assert(out@ =~= spec_report_line(
            range.start.millis,
            range.end.millis,
            pattern_text@,
            range.match_count,
        ));
    }
    Some(out)
}

/// Renders the provisional line for a still-open range starting at `start`:
/// `<start> -> ? [<pattern>] -- ongoing`. `None` exactly when the instant is
/// not representable.
pub fn render_preview(start: Timestamp, pattern_text: &str) -> (r: Option<String>)
    ensures
        r is Some <==> spec_millis_in_range(start.millis),
        r matches Some(s) ==> s@ == spec_preview_line(start.millis, pattern_text@),
{
    let head = match format_timestamp(start) {
        None => {
            return None;
        },
        Some(s) => s,
    };
    let mut out = head;
    out.append(" -> ? [");
    out.append(pattern_text);
    out.append("] -- ongoing");
    proof {
        assert(out@ =~= spec_preview_line(start.millis, pattern_text@));
    }
    Some(out)
}

} // verus!
