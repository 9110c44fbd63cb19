use vstd::prelude::*;

verus! {

#[verifier::external_type_specification]
#[verifier::external_body]
pub struct ExRegex(regex::Regex);

#[verifier::external_type_specification]
#[verifier::external_body]
pub struct ExRegexError(regex::Error);

/// Whether `regex::Regex::new` accepts `pattern` (it is well formed and its
/// compiled form fits the default size limit).
pub uninterp spec fn regex_accepts(pattern: Seq<char>) -> bool;

/// Whether the regular expression `pattern`, compiled by `regex::Regex::new`,
/// matches somewhere in `haystack` (`regex::Regex::is_match`).
pub uninterp spec fn regex_matches(pattern: Seq<char>, haystack: Seq<char>) -> bool;

/// A regular expression kept together with the text it was compiled from.
pub struct CompiledPattern {
    source: String,
    compiled: regex::Regex,
}

impl View for CompiledPattern {
    type V = Seq<char>;

    closed spec fn view(&self) -> Seq<char> {
        self.source@
    }
}

/// Why a pattern was refused.
#[derive(Debug, Clone, Copy, PartialEq, Eq)]
pub struct PatternError;

/// Compiles `source` with `regex::Regex::new`.
///
/// Trusted: `Regex::new` returns `Ok` exactly on the patterns named by
/// `regex_accepts`, and the pattern kept beside the compiled form is `source`.
#[verifier::external_body]
fn compile_regex(source: &str) -> (r: Result<CompiledPattern, regex::Error>)
    ensures
        r is Ok <==> regex_accepts(source@),
        r matches Ok(p) ==> p@ == source@,
{
    match regex::Regex::new(source) {
        Ok(compiled) => Ok(CompiledPattern { source: source.to_string(), compiled }),
        Err(e) => Err(e),
    }
}

/// Runs `regex::Regex::is_match` of the compiled pattern on `haystack`.
///
/// Trusted: the result is `regex_matches` of the pattern's source and the
/// haystack; the compiled form was built from that source by `compile_regex`.
#[verifier::external_body]
fn regex_is_match(p: &CompiledPattern, haystack: &str) -> (r: bool)
    ensures
        r == regex_matches(p@, haystack@),
{
    p.compiled.is_match(haystack)
}

impl CompiledPattern {
    /// Compiles a regular expression.
    pub fn new(source: &str) -> (r: Result<CompiledPattern, PatternError>)
        ensures
            r is Ok <==> regex_accepts(source@),
            r matches Ok(p) ==> p@ == source@,
    {
        match compile_regex(source) {
            Ok(p) => Ok(p),
            Err(_) => Err(PatternError),
        }
    }

    /// Whether the pattern matches somewhere in `haystack`.
    pub fn is_match(&self, haystack: &str) -> (r: bool)
        ensures
            r == regex_matches(self@, haystack@),
    {
        regex_is_match(self, haystack)
    }

    /// The text the pattern was compiled from.
    pub fn source(&self) -> (r: &str)
        ensures
            r@ == self@,
    {
        self.source.as_str()
    }
}

} // verus!
