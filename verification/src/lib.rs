//! Scans a stream of log lines, infers the timestamp notation in use (or
//! compiles an explicit strftime-like format string), and groups consecutive
//! lines matching user-supplied patterns into contiguous time ranges.

use vstd::prelude::*;

pub mod aggregate;
pub mod dateformat;
pub mod guess;
pub mod laws;
pub mod regex_api;
pub mod report;
pub mod strutil;
pub mod timestamp;

use crate::regex_api::CompiledRegex;
use crate::regex_api::spec_regex_valid;

verus! {

/// Why a scan's configuration was rejected before any line was read.
#[derive(Clone, Copy, Debug, PartialEq, Eq, Structural)]
pub enum ConfigError {
    /// No pattern was supplied; at least one is needed.
    NoPatterns,
    /// The pattern at this position is not a valid regular expression.
    InvalidPattern(usize),
}

/// Compiles the user's ordered pattern list, validating it eagerly: an empty
/// list and an invalid pattern are configuration errors, reported with the
/// first offending position, before any line is processed.
pub fn compile_patterns(patterns: &Vec<String>) -> (r: Result<Vec<CompiledRegex>, ConfigError>)
    ensures
        (r == Err::<Vec<CompiledRegex>, ConfigError>(ConfigError::NoPatterns)) <==> patterns@.len()
            == 0,
        r matches Err(ConfigError::InvalidPattern(i)) ==> i < patterns@.len()
            && !spec_regex_valid(patterns@[i as int]@) && (forall|j: int|
            0 <= j < i ==> spec_regex_valid(#[trigger] patterns@[j]@)),
        r matches Ok(v) ==> {
            &&& patterns@.len() > 0
            &&& v@.len() == patterns@.len()
            &&& forall|i: int| 0 <= i < v@.len() ==> #[trigger] v@[i]@ == patterns@[i]@
            &&& forall|i: int| 0 <= i < v@.len() ==> spec_regex_valid(#[trigger] patterns@[i]@)
        },
{
    if patterns.len() == 0 {
        return Err(ConfigError::NoPatterns);
    }
    let n = patterns.len();
    let mut out: Vec<CompiledRegex> = Vec::new();
    let mut i: usize = 0;
    while i < n
        invariant
            i <= n,
            n == patterns@.len(),
            out@.len() == i,
            forall|j: int| 0 <= j < i ==> #[trigger] out@[j]@ == patterns@[j]@,
            forall|j: int| 0 <= j < i ==> spec_regex_valid(#[trigger] patterns@[j]@),
        decreases n - i,
    {
        match CompiledRegex::compile(patterns[i].as_str()) {
            None => {
                return Err(ConfigError::InvalidPattern(i));
            },
            Some(re) => {
                out.push(re);
            },
        }
        i = i + 1;
    }
    Ok(out)
}

} // verus!
