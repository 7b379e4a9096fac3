//! The format library and guesser: a small fixed ordered catalog of known
//! timestamp notations, and a bounded lookahead over sample lines that returns
//! the first catalog entry whose regular expression matches.
//!
//! Catalog order is the tie-break: the first registered format that matches a
//! line wins, and earlier lines win over later ones.

use vstd::prelude::*;

use crate::dateformat::DateFormat;
use crate::dateformat::FormatError;
use crate::dateformat::build_custom_format;
use crate::dateformat::spec_compile_fmt;
use crate::dateformat::spec_format_built_from;
use crate::regex_api::spec_find;
use crate::regex_api::spec_regex_valid;

verus! {

/// How many known formats the catalog holds.
pub const KNOWN_FORMAT_COUNT: usize = 4;

/// The catalog of known timestamp notations, in priority order: an
/// application-server style with milliseconds, a syslog style without year, a
/// web-access-log style with a numeric offset, and a database style with
/// fractional seconds.
pub open spec fn spec_known_format(i: int) -> Seq<char> {
    if i == 0 {
        "%d-%b-%Y %T%.3f"@
    } else if i == 1 {
        "%b %d %T"@
    } else if i == 2 {
        "%d/%b/%Y:%T %z"@
    } else {
        "%Y-%m-%d %T%.3f"@
    }
}

/// The regex pattern that catalog entry `i` compiles to.
pub open spec fn spec_known_pattern(i: int) -> Seq<char> {
    spec_compile_fmt(spec_known_format(i))->0.pattern
}

/// Whether catalog entry `i` compiles and its pattern is accepted by the regex
/// engine.
pub open spec fn spec_known_ok(i: int) -> bool {
    &&& spec_compile_fmt(spec_known_format(i)) is Some
    &&& spec_regex_valid(spec_known_pattern(i))
}

/// Whether the whole catalog compiles; everything the guesser promises beyond
/// soundness is conditional on this.
pub open spec fn spec_lib_ok() -> bool {
    forall|i: int| 0 <= i < KNOWN_FORMAT_COUNT ==> spec_known_ok(i)
}

/// The first catalog index at or after `i` whose pattern matches `line`.
pub open spec fn spec_guess_from(line: Seq<char>, i: int) -> Option<int>
    decreases KNOWN_FORMAT_COUNT - i,
{
    if i < 0 || i >= KNOWN_FORMAT_COUNT {
        None
    } else if spec_find(spec_known_pattern(i), line) is Some {
        Some(i)
    } else {
        spec_guess_from(line, i + 1)
    }
}

/// The index of the first catalog entry whose pattern matches `line`, if any.
pub open spec fn spec_guess_idx(line: Seq<char>) -> Option<int> {
    spec_guess_from(line, 0)
}

/// The catalog's four format strings compile: of `spec_lib_ok`, only the
/// regex engine's acceptance of the derived patterns remains assumed.
pub proof fn lemma_catalog_compiles()
    ensures
        forall|i: int|
            0 <= i < KNOWN_FORMAT_COUNT ==> spec_compile_fmt(#[trigger] spec_known_format(i))
                is Some,
{
    reveal_strlit("%d-%b-%Y %T%.3f");
    reveal_strlit("%b %d %T");
    reveal_strlit("%d/%b/%Y:%T %z");
    reveal_strlit("%Y-%m-%d %T%.3f");
    reveal_with_fuel(spec_compile_fmt, 20);
    assert(spec_compile_fmt("%d-%b-%Y %T%.3f"@) is Some);
    assert(spec_compile_fmt("%b %d %T"@) is Some);
    assert(spec_compile_fmt("%d/%b/%Y:%T %z"@) is Some);
    assert(spec_compile_fmt("%Y-%m-%d %T%.3f"@) is Some);
    assert forall|i: int|
        0 <= i < KNOWN_FORMAT_COUNT implies spec_compile_fmt(
        #[trigger] spec_known_format(i),
    ) is Some by {
        if i == 0 {
        } else if i == 1 {
        } else if i == 2 {
        } else {
        }
    }
}

proof fn lemma_guess_unroll(line: Seq<char>, i: int)
    requires
        0 <= i <= KNOWN_FORMAT_COUNT,
        forall|j: int| 0 <= j < i ==> spec_find(spec_known_pattern(j), line) is None,
    ensures
        spec_guess_idx(line) == spec_guess_from(line, i),
    decreases i,
{
    if i > 0 {
        lemma_guess_unroll(line, i - 1);
    }
}

proof fn lemma_guess_from_bounds(line: Seq<char>, i: int)
    ensures
        spec_guess_from(line, i) matches Some(k) ==> i <= k < KNOWN_FORMAT_COUNT,
    decreases KNOWN_FORMAT_COUNT - i,
{
    if 0 <= i < KNOWN_FORMAT_COUNT {
        lemma_guess_from_bounds(line, i + 1);
    }
}

fn known_format(i: usize) -> (r: &'static str)
    requires
        i < KNOWN_FORMAT_COUNT,
    ensures
        r@ == spec_known_format(i as int),
{
    if i == 0 {
        "%d-%b-%Y %T%.3f"
    } else if i == 1 {
        "%b %d %T"
    } else if i == 2 {
        "%d/%b/%Y:%T %z"
    } else {
        "%Y-%m-%d %T%.3f"
    }
}

/// Tests `line` against every catalog entry in order and returns the first
/// entry whose regex matches, compiled and ready for the whole stream. When
/// the catalog compiles (it does; nothing here can prove the regex engine's
/// acceptance), the answer is exactly the first matching entry.
pub fn guess_date_format(line: &str) -> (r: Option<DateFormat>)
    ensures
        r matches Some(df) ==> spec_guess_idx(line@) matches Some(i) && spec_format_built_from(
            &df,
            spec_known_format(i),
        ),
        spec_lib_ok() ==> (r is Some <==> spec_guess_idx(line@) is Some),
{
    let mut i: usize = 0;
    while i < KNOWN_FORMAT_COUNT
        invariant
            i <= KNOWN_FORMAT_COUNT,
            forall|j: int| 0 <= j < i ==> #[trigger] spec_known_ok(j),
            forall|j: int| 0 <= j < i ==> #[trigger] spec_find(spec_known_pattern(j), line@) is None,
        decreases KNOWN_FORMAT_COUNT - i,
    {
        let f = known_format(i);
        match build_custom_format(f) {
            Err(e) => {
                proof {
                    match e {
                        FormatError::InvalidFormat => {
                            assert(spec_compile_fmt(spec_known_format(i as int)) is None);
                        },
                        FormatError::RegexRejected => {
                            assert(!spec_regex_valid(spec_known_pattern(i as int)));
                        },
                    }
                    assert(!spec_known_ok(i as int));
                }
                return None;
            },
            Ok(df) => {
                if df.regex.is_match(line) {
                    proof {
                        lemma_guess_unroll(line@, i as int);
                    }
                    return Some(df);
                }
            },
        }
        i = i + 1;
    }
    proof {
        lemma_guess_unroll(line@, KNOWN_FORMAT_COUNT as int);
    }
    None
}

/// Shifts a found index by `d`, leaving `None` as is.
pub open spec fn shift_opt(o: Option<int>, d: int) -> Option<int> {
    match o {
        None => None,
        Some(k) => Some(k + d),
    }
}

/// The guesser's walk over sample lines, carrying how many non-matching lines
/// it has seen: the first line with a catalog match wins; one more non-match
/// reaching `max` gives up. Returns the index of the winning line.
pub open spec fn spec_guess_lines(lines: Seq<Seq<char>>, attempts: int, max: int) -> Option<int>
    decreases lines.len(),
{
    if lines.len() == 0 {
        None
    } else if spec_guess_idx(lines[0]) is Some {
        Some(0)
    } else if attempts + 1 >= max {
        None
    } else {
        shift_opt(spec_guess_lines(lines.skip(1), attempts + 1, max), 1)
    }
}

proof fn lemma_gives_up_from(lines: Seq<Seq<char>>, attempts: int, max: int)
    requires
        forall|i: int| 0 <= i < lines.len() ==> spec_guess_idx(#[trigger] lines[i]) is None,
    ensures
        spec_guess_lines(lines, attempts, max) is None,
    decreases lines.len(),
{
    if lines.len() > 0 && attempts + 1 < max {
        assert forall|i: int|
            0 <= i < lines.skip(1).len() implies spec_guess_idx(
            #[trigger] lines.skip(1)[i],
        ) is None by {
            assert(lines.skip(1)[i] == lines[i + 1]);
        }
        lemma_gives_up_from(lines.skip(1), attempts + 1, max);
    }
}

/// Guessing gives up: when no line matches any catalog entry, the walk over
/// the samples answers `None`, whatever the attempt budget.
pub proof fn lemma_guess_gives_up(lines: Seq<Seq<char>>, max: int)
    requires
        forall|i: int| 0 <= i < lines.len() ==> spec_guess_idx(#[trigger] lines[i]) is None,
    ensures
        spec_guess_lines(lines, 0, max) is None,
{
    lemma_gives_up_from(lines, 0, max);
}

proof fn lemma_found_from(lines: Seq<Seq<char>>, attempts: int, max: int, k: int)
    requires
        0 <= k < lines.len(),
        k == 0 || attempts + k < max,
        forall|j: int| 0 <= j < k ==> spec_guess_idx(#[trigger] lines[j]) is None,
        (spec_guess_idx(lines[k]) is Some),
    ensures
        spec_guess_lines(lines, attempts, max) == Some(k),
    decreases k,
{
    if k > 0 {
        assert forall|j: int|
            0 <= j < k - 1 implies spec_guess_idx(#[trigger] lines.skip(1)[j]) is None by {
            assert(lines.skip(1)[j] == lines[j + 1]);
        }
        assert(lines.skip(1)[k - 1] == lines[k]);
        lemma_found_from(lines.skip(1), attempts + 1, max, k - 1);
    }
}

/// Guessing is a bounded lookahead: the first line with a catalog match wins,
/// provided fewer non-matching lines than the attempt budget precede it.
pub proof fn lemma_guess_finds_within_budget(lines: Seq<Seq<char>>, max: int, k: int)
    requires
        0 <= k < lines.len(),
        k == 0 || k < max,
        forall|j: int| 0 <= j < k ==> spec_guess_idx(#[trigger] lines[j]) is None,
        (spec_guess_idx(lines[k]) is Some),
    ensures
        spec_guess_lines(lines, 0, max) == Some(k),
{
    lemma_found_from(lines, 0, max, k);
}

/// The character sequences of a list of strings.
pub open spec fn string_views(lines: Seq<String>) -> Seq<Seq<char>> {
    Seq::new(lines.len(), |i: int| lines[i]@)
}

/// Scans `lines` in order and returns the first catalog format matching any of
/// them, giving up once `max_attempts` consecutive non-matching lines have
/// been seen with no match found anywhere.
pub fn guess_format(lines: &Vec<String>, max_attempts: usize) -> (r: Option<DateFormat>)
    ensures
        r matches Some(df) ==> exists|i: int|
            0 <= i < KNOWN_FORMAT_COUNT && #[trigger] spec_format_built_from(
                &df,
                spec_known_format(i),
            ),
        spec_lib_ok() ==> match spec_guess_lines(string_views(lines@), 0, max_attempts as int) {
            None => r is None,
            Some(k) => r matches Some(df) && spec_guess_idx(string_views(lines@)[k]) matches Some(
                i,
            ) && spec_format_built_from(&df, spec_known_format(i)),
        },
{
    let ghost views = string_views(lines@);
    let n = lines.len();
    let mut i: usize = 0;
    proof {
        assert(views.skip(0) =~= views);
    }
    while i < n
        invariant
            i <= n,
            n == lines@.len(),
            views == string_views(lines@),
            spec_lib_ok() ==> spec_guess_lines(views, 0, max_attempts as int) == shift_opt(
                spec_guess_lines(views.skip(i as int), i as int, max_attempts as int),
                i as int,
            ),
        decreases n - i,
    {
        let g = guess_date_format(lines[i].as_str());
        assert(views.skip(i as int)[0] == views[i as int]);
        assert(views[i as int] == lines@[i as int]@);
        match g {
            Some(df) => {
                proof {
                    lemma_guess_from_bounds(lines@[i as int]@, 0);
                }
                return Some(df);
            },
            None => {
                if i + 1 >= max_attempts {
                    return None;
                }
            },
        }
        proof {
            assert(views.skip(i as int).skip(1) =~= views.skip(i as int + 1));
        }
        i = i + 1;
    }
    proof {
        assert(views.skip(n as int).len() == 0);
    }
    None
}

/// The outcome of feeding the guesser one more line.
pub enum GuessOutcome {
    /// A catalog entry matched: this format handle serves the whole stream.
    Found(DateFormat),
    /// The attempt budget is exhausted with no match found.
    GaveUp,
    /// No match yet; feed another line.
    Pending,
}

/// A streaming guesser: feed it lines as they are read until it answers.
pub struct Guesser {
    pub attempts: usize,
    pub max_attempts: usize,
}

impl Guesser {
    /// A fresh guesser that gives up after `max_attempts` consecutive
    /// non-matching lines.
    pub fn new(max_attempts: usize) -> (r: Guesser)
        ensures
            r.attempts == 0,
            r.max_attempts == max_attempts,
    {
        Guesser { attempts: 0, max_attempts }
    }

    /// Feeds one line: a catalog match answers at once; otherwise the line
    /// counts against the attempt budget, and reaching it gives up.
    pub fn observe(&mut self, line: &str) -> (r: GuessOutcome)
        ensures
            final(self).max_attempts == old(self).max_attempts,
            r matches GuessOutcome::Found(df) ==> spec_guess_idx(line@) matches Some(i)
                && spec_format_built_from(&df, spec_known_format(i)) && final(self).attempts == old(
                self,
            ).attempts,
            spec_lib_ok() && spec_guess_idx(line@) is Some ==> r is Found,
            !(r is Found) ==> {
                &&& final(self).attempts == if old(self).attempts == usize::MAX {
                    usize::MAX as int
                } else {
                    old(self).attempts + 1
                }
                &&& r == (if final(self).attempts >= final(self).max_attempts {
                    GuessOutcome::GaveUp
                } else {
                    GuessOutcome::Pending
                })
            },
    {
        match guess_date_format(line) {
            Some(df) => GuessOutcome::Found(df),
            None => {
                if self.attempts < usize::MAX {
                    self.attempts = self.attempts + 1;
                }
                if self.attempts >= self.max_attempts {
                    GuessOutcome::GaveUp
                } else {
                    GuessOutcome::Pending
                }
            },
        }
    }
}

} // verus!
