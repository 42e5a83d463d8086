//! A minimal line-matching library.
//!
//! A [`Matcher`] is built once from a pattern and a mode flag and then tests
//! lines of text: in fixed-strings mode a line matches when it contains the
//! pattern as a contiguous substring; in extended-regex mode a line matches
//! when the compiled regular expression finds a match anywhere in it.

mod matcher;
mod regex_engine;
mod substring;

pub use matcher::ExtendedRegexMatcher;
pub use matcher::FixedStringsMatcher;
pub use matcher::Matcher;
pub use matcher::MatcherError;
pub use matcher::MatcherTrait;
pub use matcher::lemma_empty_pattern_matches_all;
pub use matcher::lemma_execute_deterministic;
pub use matcher::lemma_matcher_verdict;
pub use regex_engine::regex_compiles;
pub use regex_engine::regex_found;
pub use regex_engine::regex_source;
pub use substring::contains_at;
pub use substring::contains_seq;
pub use substring::contains_substring;
