//! Compiling a strftime-like format string into a matching regular expression
//! and a parsing strategy.
//!
//! Every recognized directive maps to a fixed regex fragment; literal
//! characters are regex-escaped. The directives present decide how a matched
//! substring is parsed: with an explicit timezone offset, as a naive UTC
//! instant, or with the current year prepended when no year directive occurs.

use vstd::prelude::*;

use crate::regex_api::CompiledRegex;
use crate::regex_api::spec_regex_valid;

verus! {

/// How a substring matched by a format's regex is turned into an instant.
#[derive(Clone, Copy, Debug, PartialEq, Eq, Structural)]
pub enum ParseStrategy {
    /// The format holds a timezone-offset directive: parse directly to an
    /// absolute instant.
    WithOffset,
    /// A year directive but no offset: parse as a naive time, taken as UTC.
    NoOffset,
    /// Neither offset nor year: prepend the current year, then parse as UTC.
    NoOffsetNoYear,
}

/// Why a format string was rejected.
#[derive(Clone, Copy, Debug, PartialEq, Eq, Structural)]
pub enum FormatError {
    /// The string holds an unrecognized directive.
    InvalidFormat,
    /// The derived pattern was refused by the regex engine.
    RegexRejected,
}

/// A compiled timestamp matcher: the format string to parse with, the parsing
/// strategy its directives select, and the regular expression matching exactly
/// the substring that the strategy can consume.
pub struct DateFormat {
    pub fmt: String,
    pub strategy: ParseStrategy,
    pub regex: CompiledRegex,
}

/// What compiling a format string yields: the regex pattern text and which
/// directive kinds occurred.
pub ghost struct FmtCompilation {
    pub pattern: Seq<char>,
    pub has_offset: bool,
    pub has_year: bool,
}

/// The regex fragment for a single-character directive `%c`, with whether it
/// is a timezone-offset directive and whether it fixes the year.
pub open spec fn spec_single_dir(c: char) -> Option<(Seq<char>, bool, bool)> {
    match c {
        'Y' => Some(("\\d{4}"@, false, true)),
        'C' => Some(("\\d\\d"@, false, true)),
        'y' => Some(("\\d\\d"@, false, true)),
        'm' => Some(("[0-1]\\d"@, false, false)),
        'B' => Some(("\\w"@, false, false)),
        'A' => Some(("\\w"@, false, false)),
        'h' => Some(("\\w{3}"@, false, false)),
        'a' => Some(("\\w{3}"@, false, false)),
        'd' => Some(("[0-3]\\d"@, false, false)),
        'e' => Some(("[ 1]\\d"@, false, false)),
        'w' => Some(("[0-6]"@, false, false)),
        'u' => Some(("[1-7]"@, false, false)),
        'U' => Some(("\\d\\d"@, false, false)),
        'W' => Some(("\\d\\d"@, false, false)),
        'G' => Some(("\\d{4}"@, false, true)),
        'g' => Some(("\\d\\d"@, false, true)),
        'V' => Some(("\\d\\d"@, false, false)),
        'j' => Some(("\\d{3}"@, false, false)),
        'D' => Some(("\\d\\d/\\d\\d/\\d\\d"@, false, true)),
        'x' => Some(("\\d\\d/\\d\\d/\\d\\d"@, false, true)),
        'F' => Some(("\\d{4}-\\d\\d-\\d\\d"@, false, true)),
        'v' => Some(("[ 1]\\d-\\w{3}-\\d{4}"@, false, true)),
        'H' => Some(("\\d\\d"@, false, false)),
        'k' => Some(("[ 1]\\d"@, false, false)),
        'I' => Some(("[01]\\d"@, false, false)),
        'l' => Some(("[ 1]\\d"@, false, false)),
        'P' => Some(("(am|pm)"@, false, false)),
        'p' => Some(("(AM|PM)"@, false, false)),
        'M' => Some(("\\d\\d"@, false, false)),
        'S' => Some(("\\d\\d"@, false, false)),
        'f' => Some(("\\d+"@, false, false)),
        'R' => Some(("\\d\\d:\\d\\d"@, false, false)),
        'T' => Some(("\\d\\d:\\d\\d:\\d\\d"@, false, false)),
        'X' => Some(("\\d\\d:\\d\\d:\\d\\d"@, false, false)),
        'r' => Some(("\\d\\d:\\d\\d:\\d\\d (AM|PM)"@, false, false)),
        'z' => Some(("[+-]\\d{4}"@, true, false)),
        's' => Some(("\\d+"@, false, true)),
        't' => Some(("\t"@, false, false)),
        'n' => Some(("\n"@, false, false)),
        '%' => Some(("%"@, false, false)),
        'b' => Some(("\\w{3}"@, false, false)),
        _ => None,
    }
}

/// A recognized directive just after a `%`: its regex fragment, how many
/// characters it spans past the `%`, and its offset/year classification.
pub ghost struct DirInfo {
    pub frag: Seq<char>,
    pub consumed: int,
    pub offset: bool,
    pub year: bool,
}

/// The directive found at the start of `t`, the text following a `%`.
pub open spec fn spec_dir_after(t: Seq<char>) -> Option<DirInfo> {
    if t.len() >= 2 && t[0] == '.' && t[1] == 'f' {
        Some(DirInfo { frag: "\\.\\d+"@, consumed: 2, offset: false, year: false })
    } else if t.len() >= 3 && t[0] == '.' && t[2] == 'f' && (t[1] == '3' || t[1] == '6' || t[1]
        == '9') {
        Some(
            DirInfo {
                frag: if t[1] == '3' {
                    "\\.\\d{3}"@
                } else if t[1] == '6' {
                    "\\.\\d{6}"@
                } else {
                    "\\.\\d{9}"@
                },
                consumed: 3,
                offset: false,
                year: false,
            },
        )
    } else if t.len() >= 2 && t[0] == ':' && t[1] == 'z' {
        Some(DirInfo { frag: "[+-]\\d\\d:\\d\\d"@, consumed: 2, offset: true, year: false })
    } else if t.len() >= 2 && t[0] == '#' && t[1] == 'z' {
        Some(DirInfo { frag: "[+-]\\d\\d{2,4}"@, consumed: 2, offset: true, year: false })
    } else if t.len() >= 2 && (t[0] == '3' || t[0] == '6' || t[0] == '9') && t[1] == 'f' {
        Some(
            DirInfo {
                frag: if t[0] == '3' {
                    "\\d{3}"@
                } else if t[0] == '6' {
                    "\\d{6}"@
                } else {
                    "\\d{9}"@
                },
                consumed: 2,
                offset: false,
                year: false,
            },
        )
    } else if t.len() >= 1 {
        match spec_single_dir(t[0]) {
            Some(f) => Some(DirInfo { frag: f.0, consumed: 1, offset: f.1, year: f.2 }),
            None => None,
        }
    } else {
        None
    }
}

/// Characters the regex engine treats specially outside a character class.
pub open spec fn spec_is_meta(c: char) -> bool {
    ||| c == '\\'
    ||| c == '.'
    ||| c == '+'
    ||| c == '*'
    ||| c == '?'
    ||| c == '('
    ||| c == ')'
    ||| c == '|'
    ||| c == '['
    ||| c == ']'
    ||| c == '{'
    ||| c == '}'
    ||| c == '^'
    ||| c == '$'
}

/// The regex text matching the literal character `c`.
pub open spec fn spec_escape_char(c: char) -> Seq<char> {
    if spec_is_meta(c) {
        seq!['\\', c]
    } else {
        seq![c]
    }
}

/// Compiles the format string `s`: `None` when an unrecognized directive
/// occurs, else the regex pattern matching what the directives and escaped
/// literals describe, with the directive classification.
pub open spec fn spec_compile_fmt(s: Seq<char>) -> Option<FmtCompilation>
    decreases s.len(),
{
    if s.len() == 0 {
        Some(FmtCompilation { pattern: Seq::empty(), has_offset: false, has_year: false })
    } else if s[0] == '%' {
        match spec_dir_after(s.skip(1)) {
            None => None,
            Some(d) => {
                if 0 <= d.consumed && 1 + d.consumed <= s.len() {
                    match spec_compile_fmt(s.skip(1 + d.consumed)) {
                        None => None,
                        Some(rest) => Some(
                            FmtCompilation {
                                pattern: d.frag + rest.pattern,
                                has_offset: d.offset || rest.has_offset,
                                has_year: d.year || rest.has_year,
                            },
                        ),
                    }
                } else {
                    None
                }
            },
        }
    } else {
        match spec_compile_fmt(s.skip(1)) {
            None => None,
            Some(rest) => Some(
                FmtCompilation {
                    pattern: spec_escape_char(s[0]) + rest.pattern,
                    has_offset: rest.has_offset,
                    has_year: rest.has_year,
                },
            ),
        }
    }
}

/// The strategy selected by the directive kinds present.
pub open spec fn spec_strategy_for(has_offset: bool, has_year: bool) -> ParseStrategy {
    if has_offset {
        ParseStrategy::WithOffset
    } else if has_year {
        ParseStrategy::NoOffset
    } else {
        ParseStrategy::NoOffsetNoYear
    }
}

/// Whether `df` is the compiled form of the format string `s`: its regex was
/// accepted and compiled from the pattern that `s`'s directives derive, its
/// strategy follows the directives present, and a format with neither offset
/// nor year directives parses with a year directive prefixed.
pub open spec fn spec_format_built_from(df: &DateFormat, s: Seq<char>) -> bool {
    match spec_compile_fmt(s) {
        None => false,
        Some(c) => {
            &&& spec_regex_valid(c.pattern)
            &&& df.regex@ == c.pattern
            &&& df.strategy == spec_strategy_for(c.has_offset, c.has_year)
            &&& df.fmt@ == if df.strategy is NoOffsetNoYear {
                "%Y-"@ + s
            } else {
                s
            }
        },
    }
}

fn single_dir(c: char) -> (r: Option<(&'static str, bool, bool)>)
    ensures
        r is Some <==> spec_single_dir(c) is Some,
        r matches Some(t) ==> spec_single_dir(c) == Some((t.0@, t.1, t.2)),
{
    match c {
        'Y' => Some(("\\d{4}", false, true)),
        'C' => Some(("\\d\\d", false, true)),
        'y' => Some(("\\d\\d", false, true)),
        'm' => Some(("[0-1]\\d", false, false)),
        'B' => Some(("\\w", false, false)),
        'A' => Some(("\\w", false, false)),
        'h' => Some(("\\w{3}", false, false)),
        'a' => Some(("\\w{3}", false, false)),
        'd' => Some(("[0-3]\\d", false, false)),
        'e' => Some(("[ 1]\\d", false, false)),
        'w' => Some(("[0-6]", false, false)),
        'u' => Some(("[1-7]", false, false)),
        'U' => Some(("\\d\\d", false, false)),
        'W' => Some(("\\d\\d", false, false)),
        'G' => Some(("\\d{4}", false, true)),
        'g' => Some(("\\d\\d", false, true)),
        'V' => Some(("\\d\\d", false, false)),
        'j' => Some(("\\d{3}", false, false)),
        'D' => Some(("\\d\\d/\\d\\d/\\d\\d", false, true)),
        'x' => Some(("\\d\\d/\\d\\d/\\d\\d", false, true)),
        'F' => Some(("\\d{4}-\\d\\d-\\d\\d", false, true)),
        'v' => Some(("[ 1]\\d-\\w{3}-\\d{4}", false, true)),
        'H' => Some(("\\d\\d", false, false)),
        'k' => Some(("[ 1]\\d", false, false)),
        'I' => Some(("[01]\\d", false, false)),
        'l' => Some(("[ 1]\\d", false, false)),
        'P' => Some(("(am|pm)", false, false)),
        'p' => Some(("(AM|PM)", false, false)),
        'M' => Some(("\\d\\d", false, false)),
        'S' => Some(("\\d\\d", false, false)),
        'f' => Some(("\\d+", false, false)),
        'R' => Some(("\\d\\d:\\d\\d", false, false)),
        'T' => Some(("\\d\\d:\\d\\d:\\d\\d", false, false)),
        'X' => Some(("\\d\\d:\\d\\d:\\d\\d", false, false)),
        'r' => Some(("\\d\\d:\\d\\d:\\d\\d (AM|PM)", false, false)),
        'z' => Some(("[+-]\\d{4}", true, false)),
        's' => Some(("\\d+", false, true)),
        't' => Some(("\t", false, false)),
        'n' => Some(("\n", false, false)),
        '%' => Some(("%", false, false)),
        'b' => Some(("\\w{3}", false, false)),
        _ => None,
    }
}

fn dir_after(v: &Vec<char>, i: usize) -> (r: Option<(Vec<char>, usize, bool, bool)>)
    requires
        i <= v@.len(),
    ensures
        r is Some <==> spec_dir_after(v@.skip(i as int)) is Some,
        r matches Some(t) ==> spec_dir_after(v@.skip(i as int)) == Some(
            DirInfo { frag: t.0@, consumed: t.1 as int, offset: t.2, year: t.3 },
        ),
{
    let n = v.len();
    let ghost t = v@.skip(i as int);
    assert(t.len() == n - i);
    assert(forall|j: int| 0 <= j < t.len() ==> t[j] == v@[i + j]);
    if n - i >= 2 && v[i] == '.' && v[i + 1] == 'f' {
        Some((crate::strutil::str_to_chars("\\.\\d+"), 2, false, false))
    } else if n - i >= 3 && v[i] == '.' && v[i + 2] == 'f' && (v[i + 1] == '3'
        || v[i + 1] == '6' || v[i + 1] == '9') {
        let frag = if v[i + 1] == '3' {
            crate::strutil::str_to_chars("\\.\\d{3}")
        } else if v[i + 1] == '6' {
            crate::strutil::str_to_chars("\\.\\d{6}")
        } else {
            crate::strutil::str_to_chars("\\.\\d{9}")
        };
        Some((frag, 3, false, false))
    } else if n - i >= 2 && v[i] == ':' && v[i + 1] == 'z' {
        Some((crate::strutil::str_to_chars("[+-]\\d\\d:\\d\\d"), 2, true, false))
    } else if n - i >= 2 && v[i] == '#' && v[i + 1] == 'z' {
        Some((crate::strutil::str_to_chars("[+-]\\d\\d{2,4}"), 2, true, false))
    } else if n - i >= 2 && (v[i] == '3' || v[i] == '6' || v[i] == '9')
        && v[i + 1] == 'f' {
        let frag = if v[i] == '3' {
            crate::strutil::str_to_chars("\\d{3}")
        } else if v[i] == '6' {
            crate::strutil::str_to_chars("\\d{6}")
        } else {
            crate::strutil::str_to_chars("\\d{9}")
        };
        Some((frag, 2, false, false))
    } else if n - i >= 1 {
        match single_dir(v[i]) {
            Some((frag, off, yr)) => Some((crate::strutil::str_to_chars(frag), 1, off, yr)),
            None => None,
        }
    } else {
        None
    }
}

fn escape_char_vec(c: char) -> (r: Vec<char>)
    ensures
        r@ == spec_escape_char(c),
{
    let meta = c == '\\' || c == '.' || c == '+' || c == '*' || c == '?' || c == '(' || c == ')'
        || c == '|' || c == '[' || c == ']' || c == '{' || c == '}' || c == '^' || c == '$';
    let mut r: Vec<char> = Vec::new();
    if meta {
        r.push('\\');
    }
    r.push(c);
    proof {
        if spec_is_meta(c) {
            assert(r@ =~= seq!['\\', c]);
        } else {
            assert(r@ =~= seq![c]);
        }
    }
    r
}

fn compile_from(v: &Vec<char>, i: usize) -> (r: Option<(Vec<char>, bool, bool)>)
    requires
        i <= v@.len(),
    ensures
        r is Some <==> spec_compile_fmt(v@.skip(i as int)) is Some,
        r matches Some(t) ==> spec_compile_fmt(v@.skip(i as int)) == Some(
            FmtCompilation { pattern: t.0@, has_offset: t.1, has_year: t.2 },
        ),
    decreases v@.len() - i,
{
    let ghost s = v@.skip(i as int);
    if i == v.len() {
        proof {
            assert(s =~= Seq::<char>::empty());
        }
        Some((Vec::new(), false, false))
    } else {
        assert(s.len() == v@.len() - i);
        assert(s[0] == v@[i as int]);
        let c = v[i];
        if c == '%' {
            proof {
                assert(s.skip(1) =~= v@.skip(i + 1));
            }
            match dir_after(v, i + 1) {
                None => None,
                Some((mut frag, consumed, off, yr)) => {
                    assert(1 + consumed <= s.len());
                    proof {
                        assert(s.skip(1 + consumed as int) =~= v@.skip(i + 1 + consumed));
                    }
                    match compile_from(v, i + 1 + consumed) {
                        None => None,
                        Some((mut rest, roff, ryr)) => {
                            frag.append(&mut rest);
                            Some((frag, off || roff, yr || ryr))
                        },
                    }
                },
            }
        } else {
            proof {
                assert(s.skip(1) =~= v@.skip(i + 1));
            }
            match compile_from(v, i + 1) {
                None => None,
                Some((rest, roff, ryr)) => {
                    let mut out = escape_char_vec(c);
                    let mut rest = rest;
                    out.append(&mut rest);
                    Some((out, roff, ryr))
                },
            }
        }
    }
}

/// Compiles a strftime-like format string to a `DateFormat`: its regex pattern
/// is derived directive by directive per `spec_compile_fmt`, the strategy
/// follows the directives present, and a format with neither offset nor year
/// directives has its parse string prefixed with a year directive.
pub fn build_custom_format(dtfmt: &str) -> (r: Result<DateFormat, FormatError>)
    ensures
        (r == Err::<DateFormat, FormatError>(FormatError::InvalidFormat)) <==> spec_compile_fmt(
            dtfmt@,
        ) is None,
        (r == Err::<DateFormat, FormatError>(FormatError::RegexRejected)) <==> (spec_compile_fmt(
            dtfmt@,
        ) matches Some(c) && !spec_regex_valid(c.pattern)),
        r matches Ok(df) ==> spec_format_built_from(&df, dtfmt@),
{
    let chars = crate::strutil::str_to_chars(dtfmt);
    proof {
        assert(chars@.skip(0) =~= dtfmt@);
    }
    match compile_from(&chars, 0) {
        None => Err(FormatError::InvalidFormat),
        Some((pattern, has_offset, has_year)) => {
            let pattern_str = crate::strutil::chars_to_string(&pattern);
            match CompiledRegex::compile(pattern_str.as_str()) {
                None => Err(FormatError::RegexRejected),
                Some(regex) => {
                    if has_offset {
                        Ok(
                            DateFormat {
                                fmt: String::from_str(dtfmt),
                                strategy: ParseStrategy::WithOffset,
                                regex,
                            },
                        )
                    } else if has_year {
                        Ok(
                            DateFormat {
                                fmt: String::from_str(dtfmt),
                                strategy: ParseStrategy::NoOffset,
                                regex,
                            },
                        )
                    } else {
                        Ok(
                            DateFormat {
                                fmt: String::from_str("%Y-").concat(dtfmt),
                                strategy: ParseStrategy::NoOffsetNoYear,
                                regex,
                            },
                        )
                    }
                },
            }
        },
    }
}

} // verus!
