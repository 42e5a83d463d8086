//! The matcher: a closed union of the two matching modes.

use vstd::prelude::*;

use crate::regex_engine::regex_compiles;
use crate::regex_engine::regex_found;
use crate::regex_engine::regex_is_match;
use crate::regex_engine::regex_new;
use crate::regex_engine::regex_source;
use crate::substring::contains_at;
use crate::substring::contains_seq;
use crate::substring::contains_substring;

verus! {

/// The one way construction can fail: the pattern was to be compiled as a
/// regular expression and the engine did not accept it.
#[derive(Debug)]
pub enum MatcherError {
    InvalidPattern,
}

/// A predicate over lines of text. `matches_spec` says which lines match;
/// `execute` decides it.
pub trait MatcherTrait {
    spec fn matches_spec(&self, line: Seq<char>) -> bool;

    fn execute(&self, line: &str) -> (r: bool)
        ensures
            r == self.matches_spec(line@),
    ;
}

/// Matches a line when the line contains the pattern as a contiguous
/// substring (case-sensitive, no escaping). The view is the pattern text.
pub struct FixedStringsMatcher {
    pattern: String,
}

impl View for FixedStringsMatcher {
    type V = Seq<char>;

    closed spec fn view(&self) -> Seq<char> {
        self.pattern@
    }
}

impl FixedStringsMatcher {
    /// Holds the pattern verbatim; any pattern is accepted, the empty one too.
    pub fn new(pattern: String) -> (m: FixedStringsMatcher)
        ensures
            m@ == pattern@,
    {
        FixedStringsMatcher { pattern }
    }
}

impl MatcherTrait for FixedStringsMatcher {
    open spec fn matches_spec(&self, line: Seq<char>) -> bool {
        contains_seq(line, self@)
    }

    fn execute(&self, line: &str) -> (r: bool) {
        contains_substring(line, self.pattern.as_str())
    }
}

/// Matches a line when the compiled regular expression finds a match anywhere
/// in it (unanchored search). The view is the pattern text the expression was
/// compiled from.
pub struct ExtendedRegexMatcher {
    regex: regex::Regex,
}

impl View for ExtendedRegexMatcher {
    type V = Seq<char>;

    closed spec fn view(&self) -> Seq<char> {
        regex_source(self.regex)
    }
}

impl ExtendedRegexMatcher {
    /// Compiles the pattern. Returns the matcher exactly when the engine
    /// accepts the pattern, and `InvalidPattern` otherwise.
    pub fn new(pattern: String) -> (r: Result<ExtendedRegexMatcher, MatcherError>)
        ensures
            r is Ok <==> regex_compiles(pattern@),
            r matches Ok(m) ==> m@ == pattern@,
            r matches Err(e) ==> e is InvalidPattern,
    {
        match regex_new(pattern.as_str()) {
            Ok(re) => Ok(ExtendedRegexMatcher { regex: re }),
            Err(_) => Err(MatcherError::InvalidPattern),
        }
    }
}

impl MatcherTrait for ExtendedRegexMatcher {
    open spec fn matches_spec(&self, line: Seq<char>) -> bool {
        regex_found(self@, line)
    }

    fn execute(&self, line: &str) -> (r: bool) {
        regex_is_match(&self.regex, line)
    }
}

/// A matcher in one of the two modes. The view is the pattern text, whichever
/// the mode.
pub enum Matcher {
    ExtendedRegexp(ExtendedRegexMatcher),
    FixedStrings(FixedStringsMatcher),
}

impl View for Matcher {
    type V = Seq<char>;

    open spec fn view(&self) -> Seq<char> {
        match self {
            Matcher::ExtendedRegexp(m) => m@,
            Matcher::FixedStrings(m) => m@,
        }
    }
}

impl Matcher {
    /// Which lines this matcher accepts: substring containment in fixed-strings
    /// mode, the engine's unanchored search in extended-regex mode.
    pub open spec fn matches_spec(&self, line: Seq<char>) -> bool {
        match self {
            Matcher::ExtendedRegexp(m) => m.matches_spec(line),
            Matcher::FixedStrings(m) => m.matches_spec(line),
        }
    }

    /// Builds the matcher the flag selects, holding the pattern verbatim.
    /// Fixed-strings construction always succeeds; extended-regex construction
    /// succeeds exactly when the engine accepts the pattern and fails with
    /// `InvalidPattern` otherwise.
    pub fn new(pattern: String, is_fixed_strings_mode: bool) -> (r: Result<Matcher, MatcherError>)
        ensures
            r is Ok <==> (is_fixed_strings_mode || regex_compiles(pattern@)),
            r matches Ok(m) ==> m@ == pattern@ && (m is FixedStrings <==> is_fixed_strings_mode),
            r matches Err(e) ==> e is InvalidPattern,
    {
        if is_fixed_strings_mode {
            Ok(Matcher::FixedStrings(FixedStringsMatcher::new(pattern)))
        } else {
            match ExtendedRegexMatcher::new(pattern) {
                Ok(m) => Ok(Matcher::ExtendedRegexp(m)),
                Err(e) => Err(e),
            }
        }
    }

    /// Decides whether the line matches. Never fails, and the result is fixed
    /// by the matcher and the line.
    pub fn execute(&self, line: &str) -> (r: bool)
        ensures
            r == self.matches_spec(line@),
    {
        match self {
            Matcher::FixedStrings(m) => m.execute(line),
            Matcher::ExtendedRegexp(m) => m.execute(line),
        }
    }
}

/// A matcher's verdict is fixed by its mode and its pattern text: in
/// fixed-strings mode a line matches when it contains the pattern as a
/// contiguous substring, in extended-regex mode when the engine's unanchored
/// search finds a match in it.
pub proof fn lemma_matcher_verdict(m: Matcher, line: Seq<char>)
    ensures
        m is FixedStrings ==> m.matches_spec(line) == contains_seq(line, m@),
        m is ExtendedRegexp ==> m.matches_spec(line) == regex_found(m@, line),
{
}

/// An empty fixed-strings pattern matches every line, the empty line included.
pub proof fn lemma_empty_pattern_matches_all(m: Matcher, line: Seq<char>)
    requires
        m is FixedStrings,
        m@ == Seq::<char>::empty(),
    ensures
        m.matches_spec(line),
{
    assert(line.subrange(0, 0) =~= Seq::<char>::empty());
    assert(contains_at(line, m@, 0));
}

/// Evaluation is deterministic and idempotent: any two results that
/// `execute`'s contract allows for the same matcher and the same line are
/// equal, so repeated calls always return the same verdict.
pub proof fn lemma_execute_deterministic(m: Matcher, line: Seq<char>, r1: bool, r2: bool)
    requires
        r1 == m.matches_spec(line),
        r2 == m.matches_spec(line),
    ensures
        r1 == r2,
{
}

} // verus!
