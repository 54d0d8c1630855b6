//! Extraction of a dotted version number from a program's output.
use vstd::prelude::*;

verus! {

#[verifier::external_type_specification]
#[verifier::external_body]
pub struct ExRegex(regex::Regex);

#[verifier::external_type_specification]
#[verifier::external_body]
pub struct ExRegexError(regex::Error);

/// Whether `regex::Regex::new` accepts the expression.
pub uninterp spec fn regex_valid(expr: Seq<char>) -> bool;

/// The leftmost-first match of the expression in the text, if there is one
/// (`regex::Regex::find`).
pub uninterp spec fn regex_first_match(expr: Seq<char>, text: Seq<char>) -> Option<Seq<char>>;

/// A regular expression together with the text it was compiled from.
pub struct Scanner {
    source: String,
    compiled: regex::Regex,
}

impl Scanner {
    /// The expression the scanner was compiled from.
    pub closed spec fn source(&self) -> Seq<char> {
        self.source@
    }

    /// Relies on `regex::Regex::new`: fails exactly on invalid expressions;
    /// `VERSION_EXPR` (a word boundary, digit runs, a repeated group) is valid.
    #[verifier::external_body]
    pub(crate) fn compile(expr: &str) -> (r: Result<Scanner, regex::Error>)
        ensures
            r.is_ok() == regex_valid(expr@),
            r matches Ok(s) ==> s.source() == expr@,
            expr@ == VERSION_EXPR@ ==> r.is_ok(),
    {
        match regex::Regex::new(expr) {
            Ok(compiled) => Ok(Scanner { source: expr.to_string(), compiled }),
            Err(e) => Err(e),
        }
    }

    /// Relies on `regex::Regex::find`: the text of the leftmost-first match,
    /// which lies within the searched text.
    #[verifier::external_body]
    pub(crate) fn first_match(&self, text: &str) -> (r: Option<String>)
        ensures
            r matches Some(m) ==> regex_first_match(self.source(), text@) == Some(m@),
            r is None ==> regex_first_match(self.source(), text@) is None,
            r matches Some(m) ==> m@.len() <= text@.len(),
    {
        self.compiled.find(text).map(|m| m.as_str().to_string())
    }
}

/// A run of digit groups joined by dots, standing as a whole word.
pub const VERSION_EXPR: &'static str = r"\b\d+(\.\d+)+\b";

/// The version found in a version probe's output: the first dotted number in
/// it, or the empty string where the probe did not run or printed none.
pub open spec fn probe_version_spec(output: Option<Seq<char>>) -> Seq<char> {
    match output {
        Some(text) => match regex_first_match(VERSION_EXPR@, text) {
            Some(m) => m,
            None => Seq::empty(),
        },
        None => Seq::empty(),
    }
}

impl Scanner {
    /// The scanner for `VERSION_EXPR`, compiled once and reused across probes.
    pub fn for_versions() -> (r: Option<Scanner>)
        ensures
            r matches Some(s) && s.source() == VERSION_EXPR@,
    {
        match Scanner::compile(VERSION_EXPR) {
            Ok(s) => Some(s),
            Err(_) => None,
        }
    }

    /// The version reported by a `--version` probe, given its standard
    /// output (`None` where the probe could not be run).
    pub fn probe(&self, output: Option<&str>) -> (r: String)
        requires
            self.source() == VERSION_EXPR@,
        ensures
            r@ == probe_version_spec(match output {
                Some(s) => Some(s@),
                None => None,
            }),
    {
        match output {
            None => String::new(),
            Some(text) => match self.first_match(text) {
                Some(m) => m,
                None => String::new(),
            },
        }
    }
}

/// The version reported by a `--version` probe, given its standard output
/// (`None` where the probe could not be run).
pub fn probe_version(output: Option<&str>) -> (r: String)
    ensures
        r@ == probe_version_spec(match output {
            Some(s) => Some(s@),
            None => None,
        }),
{
    match Scanner::for_versions() {
        Some(scanner) => scanner.probe(output),
        None => String::new(),
    }
}

} // verus!
