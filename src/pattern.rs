//! Case-insensitive glob patterns, compiled by the `glob` crate.
use vstd::prelude::*;

verus! {

#[verifier::external_type_specification]
#[verifier::external_body]
pub struct ExPattern(glob::Pattern);

#[verifier::external_type_specification]
#[verifier::external_body]
pub struct ExPatternError(glob::PatternError);

/// Whether `glob::Pattern::new` accepts the text as a pattern.
pub uninterp spec fn glob_valid(pattern: Seq<char>) -> bool;

/// Whether the compiled pattern matches the text, ASCII case ignored
/// (`glob::Pattern::matches_with` with `case_sensitive: false`).
pub uninterp spec fn glob_match(pattern: Seq<char>, text: Seq<char>) -> bool;

/// Whether the pattern holds no wildcard, class or path separator: each of
/// its characters then stands for itself.
pub open spec fn is_literal(pattern: Seq<char>) -> bool {
    forall|i: int| 0 <= i < pattern.len() ==> {
        let c = #[trigger] pattern[i];
        c != '*' && c != '?' && c != '[' && c != '/' && c != '\\'
    }
}

/// An ASCII letter in lower case; every other character unchanged.
pub open spec fn fold_ascii(c: char) -> char {
    if 'A' <= c && c <= 'Z' {
        ((c as u32) + 32) as char
    } else {
        c
    }
}

/// Equality of texts with ASCII case ignored.
pub open spec fn same_ignoring_ascii_case(a: Seq<char>, b: Seq<char>) -> bool {
    a.len() == b.len() && forall|i: int| 0 <= i < a.len() ==> fold_ascii(#[trigger] a[i]) == fold_ascii(b[i])
}

/// A glob pattern together with the text it was compiled from.
pub struct Glob {
    source: String,
    compiled: glob::Pattern,
}

impl Glob {
    /// The text the pattern was compiled from.
    pub closed spec fn source(&self) -> Seq<char> {
        self.source@
    }

    /// Relies on `glob::Pattern::new`: it fails exactly on malformed
    /// patterns, and only `*` and `[` can make a pattern malformed; the empty
    /// pattern and `*` compile.
    #[verifier::external_body]
    pub(crate) fn compile(pattern: &str) -> (r: Result<Glob, glob::PatternError>)
        ensures
            r.is_ok() == glob_valid(pattern@),
            r matches Ok(g) ==> g.source() == pattern@,
            pattern@.len() == 0 ==> r.is_ok(),
            pattern@ == seq!['*'] ==> r.is_ok(),
            (forall|i: int| 0 <= i < pattern@.len() ==> #[trigger] pattern@[i] != '*' && pattern@[i] != '[')
                ==> r.is_ok(),
    {
        match glob::Pattern::new(pattern) {
            Ok(compiled) => Ok(Glob { source: pattern.to_string(), compiled }),
            Err(e) => Err(e),
        }
    }

    /// Relies on `glob::Pattern::matches_with` with ASCII case ignored: `*`
    /// matches every text, the empty pattern matches the empty text only, and
    /// a literal pattern matches the texts equal to it up to ASCII case.
    #[verifier::external_body]
    pub(crate) fn matches(&self, text: &str) -> (r: bool)
        ensures
            r == glob_match(self.source(), text@),
            self.source() == seq!['*'] ==> r,
            self.source().len() == 0 ==> (r == (text@.len() == 0)),
            is_literal(self.source()) ==> (r == same_ignoring_ascii_case(self.source(), text@)),
    {
        let options = glob::MatchOptions { case_sensitive: false, ..glob::MatchOptions::new() };
        self.compiled.matches_with(text, options)
    }
}

} // verus!
