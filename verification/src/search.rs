//! Searching text with a regular expression of the `regex` crate.
use vstd::prelude::*;
use regex::Regex;
use crate::error::AwsInstanceError;

verus! {

/// `regex::Regex`: a compiled regular expression. Opaque here.
#[verifier::external_type_specification]
#[verifier::external_body]
pub struct ExRegex(Regex);

/// Whether `regex::Regex::new` accepts the pattern.
pub uninterp spec fn regex_compiles(pattern: Seq<char>) -> bool;

/// The pattern that `regex::Regex::new` compiled the regex from; it is what
/// `Regex::as_str` returns.
pub uninterp spec fn regex_source(regex: Regex) -> Seq<char>;

/// What `Regex::is_match` answers for the regex that `regex::Regex::new`
/// compiles from `pattern`: whether it matches anywhere in `text`.
pub uninterp spec fn regex_matches(pattern: Seq<char>, text: Seq<char>) -> bool;

/// `regex::Regex::new`: compiles the pattern where it is one, and keeps its
/// text.
#[verifier::external_body]
fn compile(pattern: &str) -> (r: Result<Regex, regex::Error>)
    ensures
        r is Ok <==> regex_compiles(pattern@),
        r matches Ok(regex) ==> regex_source(regex) == pattern@,
{
    Regex::new(pattern)
}

/// A search pattern that compiled. It can only be made by `new`, so the
/// regex in it is always one that `regex::Regex::new` built.
pub struct SearchPattern {
    regex: Regex,
}

/// `Regex::is_match` on the regex of a search pattern: whether it matches
/// anywhere in `text`. The regex came from `regex::Regex::new`, which sets no
/// option, so the answer depends on the pattern and the text alone.
#[verifier::external_body]
fn is_match(pattern: &SearchPattern, text: &str) -> (r: bool)
    ensures
        r == regex_matches(pattern.source(), text@),
{
    pattern.regex.is_match(text)
}

impl SearchPattern {
    /// The pattern as it was given.
    pub closed spec fn source(&self) -> Seq<char> {
        regex_source(self.regex)
    }

    /// Compiles a pattern. One that is no regular expression, or too large
    /// a one, is refused with the error that says why.
    pub fn new(pattern: &str) -> (r: Result<SearchPattern, AwsInstanceError>)
        ensures
            match r {
                Ok(compiled) => regex_compiles(pattern@) && compiled.source() == pattern@,
                Err(error) => !regex_compiles(pattern@) && error is RegexParseError,
            },
    {
        match compile(pattern) {
            Ok(regex) => Ok(SearchPattern { regex }),
            Err(error) => Err(AwsInstanceError::RegexParseError { error }),
        }
    }

    /// Whether the pattern matches anywhere in `text`.
    pub fn is_match(&self, text: &str) -> (r: bool)
        ensures
            r == regex_matches(self.source(), text@),
    {
        is_match(self, text)
    }
}

} // verus!
