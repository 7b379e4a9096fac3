//! The streaming range aggregator: consumes lines one at a time, extracts a
//! timestamp with the active format, classifies the line against an ordered
//! pattern list, and merges adjacent matches of one pattern into time ranges
//! under a five-minute gap tolerance.
//!
//! The per-line transition is `step_spec`, a pure function of the aggregator
//! model and of the line's event (its timestamp, if any, and the first pattern
//! it matches, if any). `Aggregator::process_line_with_year` is proved to
//! follow it exactly.

use vstd::prelude::*;

use crate::dateformat::DateFormat;
use crate::regex_api::CompiledRegex;
use crate::regex_api::spec_find;
use crate::timestamp::ScanError;
use crate::timestamp::Timestamp;
use crate::timestamp::TsOutcome;
use crate::timestamp::extract_timestamp_with_year;
use crate::timestamp::spec_line_ts;

verus! {

/// Matches of one pattern further apart than this, in milliseconds, belong to
/// separate ranges: five minutes.
pub const GAP_TOLERANCE_MILLIS: i64 = 300000;

/// A maximal run of lines matching one pattern: its first and last timestamp,
/// the pattern's index in the user's ordered list, and how many lines matched.
#[derive(Clone, Copy, Debug, PartialEq, Eq, Structural)]
pub struct Range {
    pub start: Timestamp,
    pub end: Timestamp,
    pub pattern_index: usize,
    pub match_count: u64,
}

/// The mathematical image of a `Range`.
pub ghost struct SpecRange {
    pub start: int,
    pub end: int,
    pub pattern_index: int,
    pub match_count: int,
}

impl View for Range {
    type V = SpecRange;

    open spec fn view(&self) -> SpecRange {
        SpecRange {
            start: self.start.millis as int,
            end: self.end.millis as int,
            pattern_index: self.pattern_index as int,
            match_count: self.match_count as int,
        }
    }
}

/// The mathematical image of the aggregator's mutable state: the open range,
/// if any, and the last timestamp seen, if any.
pub ghost struct AggModel {
    pub open: Option<SpecRange>,
    pub last: Option<int>,
}

/// What one line contributes: the instant its timestamp parsed to, if it
/// carries one, and the index of the first pattern matching it, if any.
pub ghost struct Event {
    pub ts: Option<int>,
    pub pat: Option<int>,
}

/// The initial aggregator model: no open range, no timestamp seen.
pub open spec fn init_model() -> AggModel {
    AggModel { open: None, last: None }
}

/// `match_count` grows by one per matching line, pinned at its maximum.
pub open spec fn sat_inc(c: int) -> int {
    if c >= u64::MAX {
        c
    } else {
        c + 1
    }
}

/// The timestamp part of a step: a new timestamp becomes the last seen, and an
/// open range whose end lies more than the gap tolerance before it is closed
/// (emitted) before any pattern is considered.
pub open spec fn gap_close_spec(m: AggModel, ts: Option<int>) -> (AggModel, Option<SpecRange>) {
    match ts {
        None => (m, None),
        Some(t) => match m.open {
            None => (AggModel { open: None, last: Some(t) }, None),
            Some(r) => if t - r.end > GAP_TOLERANCE_MILLIS {
                (AggModel { open: None, last: Some(t) }, Some(r))
            } else {
                (AggModel { open: Some(r), last: Some(t) }, None)
            },
        },
    }
}

/// The pattern part of a step. Without a known timestamp the line is skipped.
/// Otherwise a line matching the open range's pattern extends it; one matching
/// a different pattern closes (emits) the open range and opens a new one; one
/// matching while no range is open opens one.
pub open spec fn pattern_step_spec(m: AggModel, pat: Option<int>) -> (AggModel, Option<SpecRange>) {
    match m.last {
        None => (m, None),
        Some(lt) => match pat {
            None => (m, None),
            Some(i) => match m.open {
                None => (
                    AggModel {
                        open: Some(
                            SpecRange { start: lt, end: lt, pattern_index: i, match_count: 1 },
                        ),
                        last: m.last,
                    },
                    None,
                ),
                Some(r) => if r.pattern_index == i {
                    (
                        AggModel {
                            open: Some(
                                SpecRange {
                                    start: r.start,
                                    end: lt,
                                    pattern_index: i,
                                    match_count: sat_inc(r.match_count),
                                },
                            ),
                            last: m.last,
                        },
                        None,
                    )
                } else {
                    (
                        AggModel {
                            open: Some(
                                SpecRange { start: lt, end: lt, pattern_index: i, match_count: 1 },
                            ),
                            last: m.last,
                        },
                        Some(r),
                    )
                },
            },
        },
    }
}

/// One full per-line transition: the timestamp part, then the pattern part.
/// At most one range is emitted; a gap close leaves no range open, so the
/// pattern part cannot emit a second one.
pub open spec fn step_spec(m: AggModel, ev: Event) -> (AggModel, Option<SpecRange>) {
    let g = gap_close_spec(m, ev.ts);
    let p = pattern_step_spec(g.0, ev.pat);
    (p.0, if g.1 is Some {
        g.1
    } else {
        p.1
    })
}

/// The ranges an optional emission contributes.
pub open spec fn opt_to_seq(o: Option<SpecRange>) -> Seq<SpecRange> {
    match o {
        None => Seq::empty(),
        Some(r) => seq![r],
    }
}

/// Runs the state machine over `evs` from `m`: the final model and the ranges
/// emitted along the way, in order.
pub open spec fn run_spec(m: AggModel, evs: Seq<Event>) -> (AggModel, Seq<SpecRange>)
    decreases evs.len(),
{
    if evs.len() == 0 {
        (m, Seq::empty())
    } else {
        let s = step_spec(m, evs[0]);
        let rest = run_spec(s.0, evs.skip(1));
        (rest.0, opt_to_seq(s.1) + rest.1)
    }
}

/// What ending the scan emits: the still-open range, if any.
pub open spec fn flush_spec(m: AggModel) -> Seq<SpecRange> {
    match m.open {
        None => Seq::empty(),
        Some(r) => seq![r],
    }
}

/// All the ranges a whole scan of `evs` reports: those emitted while running,
/// then the open range flushed at end of input, exactly once.
pub open spec fn scan_spec(evs: Seq<Event>) -> Seq<SpecRange> {
    let r = run_spec(init_model(), evs);
    r.1 + flush_spec(r.0)
}

/// Running over a concatenation runs over the parts in turn, emitting the
/// first part's ranges before the second's.
pub proof fn lemma_run_append(m: AggModel, a: Seq<Event>, b: Seq<Event>)
    ensures
        run_spec(m, a + b).0 == run_spec(run_spec(m, a).0, b).0,
        run_spec(m, a + b).1 == run_spec(m, a).1 + run_spec(run_spec(m, a).0, b).1,
    decreases a.len(),
{
    if a.len() == 0 {
        assert(a + b =~= b);
        assert(run_spec(m, a).1 + run_spec(run_spec(m, a).0, b).1 =~= run_spec(m, b).1);
    } else {
        let s = step_spec(m, a[0]);
        assert((a + b)[0] == a[0]);
        assert((a + b).skip(1) =~= a.skip(1) + b);
        lemma_run_append(s.0, a.skip(1), b);
        assert(opt_to_seq(s.1) + (run_spec(s.0, a.skip(1)).1 + run_spec(
            run_spec(s.0, a.skip(1)).0,
            b,
        ).1) =~= (opt_to_seq(s.1) + run_spec(s.0, a.skip(1)).1) + run_spec(
            run_spec(s.0, a.skip(1)).0,
            b,
        ).1);
    }
}

/// The pattern texts of a list of compiled regexes.
pub open spec fn regex_views(pats: Seq<CompiledRegex>) -> Seq<Seq<char>> {
    Seq::new(pats.len(), |i: int| pats[i]@)
}

/// The first index at or after `i` whose pattern matches `line`.
pub open spec fn spec_first_match_from(pats: Seq<Seq<char>>, line: Seq<char>, i: int) -> Option<
    int,
>
    decreases pats.len() - i,
{
    if i < 0 || i >= pats.len() {
        None
    } else if spec_find(pats[i], line) is Some {
        Some(i)
    } else {
        spec_first_match_from(pats, line, i + 1)
    }
}

/// The index of the first pattern in `pats` that matches `line`, if any.
pub open spec fn spec_first_match(pats: Seq<Seq<char>>, line: Seq<char>) -> Option<int> {
    spec_first_match_from(pats, line, 0)
}

proof fn lemma_first_match_unroll(pats: Seq<Seq<char>>, line: Seq<char>, i: int)
    requires
        0 <= i <= pats.len(),
        forall|j: int| 0 <= j < i ==> spec_find(pats[j], line) is None,
    ensures
        spec_first_match(pats, line) == spec_first_match_from(pats, line, i),
    decreases i,
{
    if i > 0 {
        lemma_first_match_unroll(pats, line, i - 1);
    }
}

fn first_match_index(pats: &Vec<CompiledRegex>, line: &str) -> (r: Option<usize>)
    ensures
        match r {
            Some(i) => i < pats@.len() && Some(i as int) == spec_first_match(
                regex_views(pats@),
                line@,
            ),
            None => spec_first_match(regex_views(pats@), line@) is None,
        },
{
    let ghost views = regex_views(pats@);
    let n = pats.len();
    let mut i: usize = 0;
    while i < n
        invariant
            i <= n,
            n == pats@.len(),
            views == regex_views(pats@),
            forall|j: int| 0 <= j < i ==> spec_find(views[j], line@) is None,
        decreases n - i,
    {
        if pats[i].is_match(line) {
            proof {
                lemma_first_match_unroll(views, line@, i as int);
            }
            return Some(i);
        }
        i = i + 1;
    }
    proof {
        lemma_first_match_unroll(views, line@, n as int);
    }
    None
}

/// The event `line` contributes under format `df` and pattern list `pats`,
/// with `year` the current year for year-less formats.
pub open spec fn spec_line_event(
    df: &DateFormat,
    pats: Seq<CompiledRegex>,
    line: Seq<char>,
    year: i32,
) -> Event {
    Event {
        ts: match spec_line_ts(df, line, year) {
            TsOutcome::Found(ms) => Some(ms as int),
            _ => None,
        },
        pat: spec_first_match(regex_views(pats), line),
    }
}

/// The events a sequence of lines contributes, in order.
pub open spec fn spec_line_events(
    df: &DateFormat,
    pats: Seq<CompiledRegex>,
    lines: Seq<Seq<char>>,
    year: i32,
) -> Seq<Event> {
    Seq::new(lines.len(), |i: int| spec_line_event(df, pats, lines[i], year))
}

/// Whether some line's regex match fails its paired parser, which aborts a
/// scan.
pub open spec fn spec_scan_fails(
    df: &DateFormat,
    lines: Seq<Seq<char>>,
    year: i32,
) -> bool {
    exists|i: int| 0 <= i < lines.len() && spec_line_ts(df, #[trigger] lines[i], year) is ParseFailed
}

/// The character sequences of a list of lines.
pub open spec fn line_views(lines: Seq<String>) -> Seq<Seq<char>> {
    Seq::new(lines.len(), |i: int| lines[i]@)
}

/// The mathematical images of a list of ranges.
pub open spec fn range_views(rs: Seq<Range>) -> Seq<SpecRange> {
    Seq::new(rs.len(), |i: int| rs[i]@)
}

/// The aggregator: the immutable format handle and pattern list it scans with,
/// and its mutable state, at most one open range plus the last timestamp seen.
pub struct Aggregator {
    pub datefmt: DateFormat,
    pub patterns: Vec<CompiledRegex>,
    pub open: Option<Range>,
    pub last_ts: Option<Timestamp>,
}

/// The mathematical image of an optional emitted range.
pub open spec fn opt_range_model(o: Option<Range>) -> Option<SpecRange> {
    match o {
        Some(r) => Some(r@),
        None => None,
    }
}

impl Aggregator {
    /// The mathematical image of the mutable state.
    pub open spec fn model(&self) -> AggModel {
        AggModel {
            open: opt_range_model(self.open),
            last: match self.last_ts {
                Some(t) => Some(t.millis as int),
                None => None,
            },
        }
    }

    /// The event `line` contributes under this aggregator's format and
    /// patterns, with `year` the current year for year-less formats.
    pub open spec fn spec_event(&self, line: Seq<char>, year: i32) -> Event {
        spec_line_event(&self.datefmt, self.patterns@, line, year)
    }

    /// A fresh aggregator over `datefmt` and `patterns`: nothing seen yet.
    pub fn new(datefmt: DateFormat, patterns: Vec<CompiledRegex>) -> (r: Aggregator)
        ensures
            r.datefmt == datefmt,
            r.patterns == patterns,
            r.model() == init_model(),
    {
        Aggregator { datefmt, patterns, open: None, last_ts: None }
    }

    /// Feeds one line, with `year` the current year for year-less formats.
    /// Returns the range this line closed, if any. An error means a substring
    /// matched by the format's regex failed to parse, which leaves the state
    /// unchanged and should abort the scan.
    pub fn process_line_with_year(&mut self, line: &str, year: i32) -> (r: Result<
        Option<Range>,
        ScanError,
    >)
        ensures
            process_outcome_matches(*old(self), *final(self), line@, year, r),
    {
        let ghost pre = *self;
        let ts = match extract_timestamp_with_year(&self.datefmt, line, year) {
            Err(e) => {
                return Err(e);
            },
            Ok(t) => t,
        };
        let mut emitted: Option<Range> = None;
        match ts {
            None => {},
            Some(t) => {
                let close = match &self.open {
                    None => false,
                    Some(r) => (t.millis as i128) - (r.end.millis as i128) > (
                    GAP_TOLERANCE_MILLIS as i128),
                };
                if close {
                    emitted = self.open;
                    self.open = None;
                }
                self.last_ts = Some(t);
            },
        }
        proof {
            let g = gap_close_spec(pre.model(), pre.spec_event(line@, year).ts);
            assert(self.model() == g.0);
            assert(opt_range_model(emitted) == g.1);
        }
        match self.last_ts {
            None => {},
            Some(last) => {
                match first_match_index(&self.patterns, line) {
                    None => {},
                    Some(i) => {
                        let open_now = self.open;
                        match open_now {
                            Some(r) => {
                                if r.pattern_index == i {
                                    let c = r.match_count;
                                    let c2 = if c == u64::MAX {
                                        c
                                    } else {
                                        c + 1
                                    };
                                    self.open = Some(
                                        Range {
                                            start: r.start,
                                            end: last,
                                            pattern_index: i,
                                            match_count: c2,
                                        },
                                    );
                                } else {
                                    emitted = Some(r);
                                    self.open = Some(
                                        Range {
                                            start: last,
                                            end: last,
                                            pattern_index: i,
                                            match_count: 1,
                                        },
                                    );
                                }
                            },
                            None => {
                                self.open = Some(
                                    Range {
                                        start: last,
                                        end: last,
                                        pattern_index: i,
                                        match_count: 1,
                                    },
                                );
                            },
                        }
                    },
                }
            },
        }
        Ok(emitted)
    }

    /// Feeds one line, reading the current year from the clock for year-less
    /// formats.
    pub fn process_line(&mut self, line: &str) -> (r: Result<Option<Range>, ScanError>)
        ensures
            exists|y: i32| process_outcome_matches(*old(self), *final(self), line@, y, r),
    {
        let y = crate::timestamp::clock_year();
        let r = self.process_line_with_year(line, y);
        proof {
            assert(process_outcome_matches(*old(self), *self, line@, y, r));
        }
        r
    }

    /// Ends the scan: the still-open range, if any, is flushed, exactly once;
    /// afterwards no range is open.
    pub fn finish(&mut self) -> (r: Option<Range>)
        ensures
            r == old(self).open,
            final(self).open is None,
            final(self).last_ts == old(self).last_ts,
            final(self).datefmt == old(self).datefmt,
            final(self).patterns == old(self).patterns,
    {
        let r = self.open;
        self.open = None;
        r
    }
}

/// Scans a whole sequence of lines with a fresh aggregator over `datefmt` and
/// `patterns`, flushing the open range at end of input: the result is exactly
/// what `scan_spec` prescribes for the lines' events. The first line whose
/// regex match fails to parse aborts the scan with an error, if and only if
/// there is such a line among those reached.
pub fn scan_lines_with_year(
    datefmt: DateFormat,
    patterns: Vec<CompiledRegex>,
    lines: &Vec<String>,
    year: i32,
) -> (r: Result<Vec<Range>, ScanError>)
    ensures
        (r is Err) <==> spec_scan_fails(&datefmt, line_views(lines@), year),
        r matches Ok(v) ==> range_views(v@) == scan_spec(
            spec_line_events(&datefmt, patterns@, line_views(lines@), year),
        ),
{
    let ghost lviews = line_views(lines@);
    let ghost evs = spec_line_events(&datefmt, patterns@, lviews, year);
    let mut agg = Aggregator::new(datefmt, patterns);
    let n = lines.len();
    let mut out: Vec<Range> = Vec::new();
    let mut i: usize = 0;
    proof {
        assert(evs.take(0) =~= Seq::<Event>::empty());
        assert(range_views(out@) =~= Seq::<SpecRange>::empty());
    }
    while i < n
        invariant
            i <= n,
            n == lines@.len(),
            lviews == line_views(lines@),
            evs == spec_line_events(&datefmt, patterns@, lviews, year),
            evs.len() == n,
            agg.datefmt == datefmt,
            agg.patterns == patterns,
            agg.model() == run_spec(init_model(), evs.take(i as int)).0,
            range_views(out@) == run_spec(init_model(), evs.take(i as int)).1,
            forall|j: int|
                0 <= j < i ==> !(spec_line_ts(&datefmt, #[trigger] lviews[j], year)
                    is ParseFailed),
        decreases n - i,
    {
        let ghost pre = run_spec(init_model(), evs.take(i as int));
        let ghost ev = evs[i as int];
        assert(lviews[i as int] == lines@[i as int]@);
        match agg.process_line_with_year(lines[i].as_str(), year) {
            Err(e) => {
                assert(spec_line_ts(&datefmt, lviews[i as int], year) is ParseFailed);
                return Err(e);
            },
            Ok(emit) => {
                proof {
                    assert(evs.take(i as int + 1) =~= evs.take(i as int) + seq![ev]);
                    lemma_run_append(init_model(), evs.take(i as int), seq![ev]);
                    reveal_with_fuel(run_spec, 3);
                    assert(seq![ev][0] == ev);
                    assert(seq![ev].skip(1) =~= Seq::<Event>::empty());
                    let st = step_spec(pre.0, ev);
                    assert(run_spec(pre.0, seq![ev]).0 == st.0);
                    assert(run_spec(pre.0, seq![ev]).1 =~= opt_to_seq(st.1));
                    assert(agg.model() == st.0);
                    assert(opt_range_model(emit) == st.1);
                }
                match emit {
                    Some(rg) => {
                        out.push(rg);
                        proof {
                            assert(range_views(out@) =~= run_spec(
                                init_model(),
                                evs.take(i as int + 1),
                            ).1);
                        }
                    },
                    None => {
                        proof {
                            assert(range_views(out@) =~= run_spec(
                                init_model(),
                                evs.take(i as int + 1),
                            ).1);
                        }
                    },
                }
            },
        }
        i = i + 1;
    }
    proof {
        assert(evs.take(n as int) =~= evs);
    }
    match agg.finish() {
        Some(rg) => {
            out.push(rg);
            proof {
                assert(range_views(out@) =~= scan_spec(evs));
            }
        },
        None => {
            proof {
                assert(range_views(out@) =~= scan_spec(evs));
            }
        },
    }
    Ok(out)
}

/// Whether feeding `line` with `year` moved the aggregator from `pre` to
/// `post` and returned `r` as `step_spec` prescribes: an unparseable match is
/// an error leaving the state unchanged; otherwise the model steps by the
/// line's event and `r` carries the emitted range.
pub open spec fn process_outcome_matches(
    pre: Aggregator,
    post: Aggregator,
    line: Seq<char>,
    year: i32,
    r: Result<Option<Range>, ScanError>,
) -> bool {
    &&& post.datefmt == pre.datefmt
    &&& post.patterns == pre.patterns
    &&& if spec_line_ts(&pre.datefmt, line, year) is ParseFailed {
        r == Err::<Option<Range>, ScanError>(ScanError::InternalParseInconsistency) && post == pre
    } else {
        let s = step_spec(pre.model(), pre.spec_event(line, year));
        &&& post.model() == s.0
        &&& r matches Ok(emit) && opt_range_model(emit) == s.1
    }
}

} // verus!
