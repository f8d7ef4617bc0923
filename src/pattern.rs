//! Case-insensitive regular expressions over label names.
use vstd::prelude::*;

verus! {

#[verifier::external_type_specification]
#[verifier::external_body]
pub struct ExRegex(regex::Regex);

#[verifier::external_type_specification]
#[verifier::external_body]
pub struct ExRegexError(regex::Error);

/// Whether `pattern` compiles as a case-insensitive regular expression.
pub uninterp spec fn pattern_compiles(pattern: Seq<char>) -> bool;

/// Whether the case-insensitive regular expression `pattern` matches
/// somewhere in `text`.
pub uninterp spec fn pattern_matches(pattern: Seq<char>, text: Seq<char>) -> bool;

/// A compiled case-insensitive regular expression, kept with its source.
pub struct LabelPattern {
    pattern: String,
    regex: regex::Regex,
}

/// Why a pattern could not be used.
#[derive(Debug, PartialEq, Eq)]
pub enum PatternError {
    /// The pattern is not a valid regular expression.
    Invalid,
}

/// Relies on regex::RegexBuilder::build with case_insensitive(true): whether
/// compiling succeeds depends on the pattern alone.
#[verifier::external_body]
fn compile_case_insensitive(pattern: &str) -> (r: Result<LabelPattern, regex::Error>)
    ensures
        r is Ok == pattern_compiles(pattern@),
        r matches Ok(p) ==> p.pattern@ == pattern@,
{
    match regex::RegexBuilder::new(pattern).case_insensitive(true).build() {
        Ok(regex) => Ok(LabelPattern { pattern: pattern.to_owned(), regex }),
        Err(e) => Err(e),
    }
}

/// Relies on regex::Regex::is_match: whether the expression matches anywhere
/// in `text`.
#[verifier::external_body]
fn regex_is_match(p: &LabelPattern, text: &str) -> (r: bool)
    ensures
        r == pattern_matches(p.pattern@, text@),
{
    p.regex.is_match(text)
}

impl LabelPattern {
    /// The pattern this expression was compiled from.
    pub closed spec fn source(&self) -> Seq<char> {
        self.pattern@
    }

    /// Compiles `pattern`, ignoring case; fails exactly when the pattern is
    /// not a valid regular expression.
    pub fn new(pattern: &str) -> (r: Result<LabelPattern, PatternError>)
        ensures
            r is Ok == pattern_compiles(pattern@),
            r matches Ok(p) ==> p.source() == pattern@,
    {
        match compile_case_insensitive(pattern) {
            Ok(p) => Ok(p),
            Err(_) => Err(PatternError::Invalid),
        }
    }

    /// Whether the expression matches somewhere in `text`.
    pub fn is_match(&self, text: &str) -> (r: bool)
        ensures
            r == pattern_matches(self.source(), text@),
    {
        regex_is_match(self, text)
    }
}

} // verus!
