use vstd::prelude::*;

verus! {

/// Whether `pattern` is accepted by the regex compiler with its default limits.
pub uninterp spec fn compiles(pattern: Seq<char>) -> bool;

/// Whether the regex compiled from `pattern` matches somewhere in `haystack`.
pub uninterp spec fn finds_match(pattern: Seq<char>, haystack: Seq<char>) -> bool;

#[verifier::external_type_specification]
#[verifier::external_body]
pub struct ExRegex(regex::Regex);

#[verifier::external_type_specification]
#[verifier::external_body]
pub struct ExRegexError(regex::Error);

/// Why a pattern could not be compiled.
#[derive(PartialEq, Eq, Structural, Clone, Copy, Debug)]
pub enum PatternError {
    /// The pattern is not valid syntax, or compiles to a program over the
    /// size limit.
    Invalid,
}

/// Relies on regex::Regex::new: it succeeds or fails on the pattern alone,
/// under the default size limit.
#[verifier::external_body]
fn compile_regex(pattern: &str) -> (r: Result<regex::Regex, regex::Error>)
    ensures
        r is Ok <==> compiles(pattern@),
{
    regex::Regex::new(pattern)
}

/// A compiled regular expression together with the pattern it was compiled
/// from.
pub struct CompiledPattern {
    source: String,
    re: regex::Regex,
}

impl CompiledPattern {
    /// The pattern this regex was compiled from.
    pub closed spec fn source(&self) -> Seq<char> {
        self.source@
    }

    /// Compiles `pattern`; fails exactly on the patterns the regex compiler
    /// refuses.
    pub fn compile(pattern: &str) -> (r: Result<CompiledPattern, PatternError>)
        ensures
            r is Ok <==> compiles(pattern@),
            r matches Ok(p) ==> p.source() == pattern@,
            r is Err ==> r == Err::<CompiledPattern, PatternError>(PatternError::Invalid),
    {
        match compile_regex(pattern) {
            Ok(re) => Ok(CompiledPattern { source: pattern.to_owned(), re }),
            Err(_) => Err(PatternError::Invalid),
        }
    }

    /// The pattern this regex was compiled from.
    pub fn as_str(&self) -> (s: &str)
        ensures
            s@ == self.source(),
    {
        self.source.as_str()
    }

    /// Whether the regex matches somewhere in `haystack`.
    pub fn is_match(&self, haystack: &str) -> (r: bool)
        ensures
            r == finds_match(self.source(), haystack@),
    {
        regex_is_match(self, haystack)
    }
}

/// Relies on regex::Regex::is_match: true exactly when the regex matches
/// somewhere in the haystack, which depends on the pattern and the haystack
/// alone. The regex of a `CompiledPattern` is always the one compiled from
/// its `source`, as `CompiledPattern::compile` is its only constructor.
#[verifier::external_body]
fn regex_is_match(p: &CompiledPattern, haystack: &str) -> (r: bool)
    ensures
        r == finds_match(p.source(), haystack@),
{
    p.re.is_match(haystack)
}

} // verus!
