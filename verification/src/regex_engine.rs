//! The regular-expression engine, behind trusted declarations.
//!
//! Everything the library states about the engine is gathered here: the
//! declarations of its types, names for what its calls return, and the two
//! wrappers the verified code goes through. The engine is deterministic, so
//! whether a pattern compiles, and whether a compiled pattern finds a match in
//! a line, are functions of the text alone; the names below stand for those
//! functions without writing the engine out.

use vstd::prelude::*;

verus! {

#[verifier::external_type_specification]
#[verifier::external_body]
pub struct ExRegex(regex::Regex);

#[verifier::external_type_specification]
#[verifier::external_body]
pub struct ExRegexError(regex::Error);

/// The pattern text a compiled regular expression was built from.
pub uninterp spec fn regex_source(re: regex::Regex) -> Seq<char>;

/// Whether the engine accepts a pattern: it is syntactically valid and compiles
/// under the engine's default configuration.
pub uninterp spec fn regex_compiles(pattern: Seq<char>) -> bool;

/// Whether an unanchored search with the pattern finds a match in the line.
pub uninterp spec fn regex_found(pattern: Seq<char>, line: Seq<char>) -> bool;

/// Relies on regex::Regex::new: it returns Ok exactly when the pattern is
/// accepted, and the compiled value keeps the pattern text it was built from
/// (regex::Regex::as_str returns that text).
#[verifier::external_body]
pub(crate) fn regex_new(pattern: &str) -> (r: Result<regex::Regex, regex::Error>)
    ensures
        r is Ok <==> regex_compiles(pattern@),
        r is Ok ==> regex_source(r->Ok_0) == pattern@,
{
    regex::Regex::new(pattern)
}

/// Relies on regex::Regex::is_match: true exactly when an unanchored search
/// finds a match in the line, a function of the compiled pattern's text and the
/// line alone.
#[verifier::external_body]
pub(crate) fn regex_is_match(re: &regex::Regex, line: &str) -> (r: bool)
    ensures
        r == regex_found(regex_source(*re), line@),
{
    re.is_match(line)
}

} // verus!
