//! The boundary to the `regex` crate: a compiled pattern together with the
//! pattern text it was built from, and searches through it.
//!
//! What a pattern matches is opaque here: `spec_find` names the leftmost match
//! that `regex::Regex::find` returns for a given pattern and haystack, and
//! `spec_regex_valid` names whether `regex::Regex::new` accepts a pattern.
//! Everything the rest of the crate states about matching goes through those
//! two names.

use vstd::prelude::*;

verus! {

#[verifier::external_type_specification]
#[verifier::external_body]
pub struct ExRegex(regex::Regex);

/// Whether `regex::Regex::new` accepts `pattern`.
pub uninterp spec fn spec_regex_valid(pattern: Seq<char>) -> bool;

/// The text of the leftmost match that the regex compiled from `pattern`
/// finds in `hay`, if any.
pub uninterp spec fn spec_find(pattern: Seq<char>, hay: Seq<char>) -> Option<Seq<char>>;

/// A regular expression kept together with the pattern text it was compiled
/// from. The pairing is established by `compile_regex`, the only constructor.
pub struct CompiledRegex {
    pattern: String,
    inner: regex::Regex,
}

impl View for CompiledRegex {
    type V = Seq<char>;

    closed spec fn view(&self) -> Seq<char> {
        self.pattern@
    }
}

/// Relies on `regex::Regex::new`: it returns `Ok` exactly for the patterns it
/// accepts, and the compiled regex searches for that pattern.
#[verifier::external_body]
fn regex_new(pattern: &str) -> (r: Option<CompiledRegex>)
    ensures
        r is Some <==> spec_regex_valid(pattern@),
        r is Some ==> r->0@ == pattern@,
{
    match regex::Regex::new(pattern) {
        Ok(inner) => Some(CompiledRegex { pattern: pattern.to_string(), inner }),
        Err(_) => None,
    }
}

/// Relies on `regex::Regex::find`: it returns the leftmost match of the
/// compiled pattern in the haystack, which depends on the pattern text and the
/// haystack alone.
#[verifier::external_body]
fn regex_find(re: &CompiledRegex, hay: &str) -> (r: Option<String>)
    ensures
        r is Some <==> spec_find(re@, hay@) is Some,
        r is Some ==> Some(r->0@) == spec_find(re@, hay@),
{
    re.inner.find(hay).map(|m| m.as_str().to_string())
}

impl CompiledRegex {
    /// Compiles `pattern`; `None` when the regex crate rejects it.
    pub fn compile(pattern: &str) -> (r: Option<CompiledRegex>)
        ensures
            r is Some <==> spec_regex_valid(pattern@),
            r is Some ==> r->0@ == pattern@,
    {
        regex_new(pattern)
    }

    /// The pattern text this regex was compiled from.
    pub fn pattern_str(&self) -> (r: &str)
        ensures
            r@ == self@,
    {
        self.pattern.as_str()
    }

    /// The text of the leftmost match in `hay`, if any.
    pub fn find_first(&self, hay: &str) -> (r: Option<String>)
        ensures
            r is Some <==> spec_find(self@, hay@) is Some,
            r is Some ==> Some(r->0@) == spec_find(self@, hay@),
    {
        regex_find(self, hay)
    }

    /// Whether the pattern matches anywhere in `hay`.
    pub fn is_match(&self, hay: &str) -> (r: bool)
        ensures
            r == (spec_find(self@, hay@) is Some),
    {
        let m = regex_find(self, hay);
        m.is_some()
    }
}

} // verus!
