//! The browser record and the finder that selects records by type, version
//! and exclusion patterns.
use vstd::prelude::*;
use crate::pattern::{glob_match, glob_valid, is_literal, same_ignoring_ascii_case, Glob};

verus! {

broadcast use vstd::seq_lib::group_seq_properties;

/// One installed browser, normalised across platforms.
#[derive(Clone, Debug, Hash)]
pub struct Browser {
    /// Canonical lowercase-hyphenated identifier, such as `chrome-canary`.
    pub browser_type: String,
    /// The invocable entry point (or the application bundle).
    pub path: String,
    /// Name as reported by the operating system.
    pub display_name: String,
    /// Version string as surfaced by the operating system; may be empty.
    pub version: String,
}

impl Browser {
    /// A field-by-field copy.
    pub fn copy_of(&self) -> (r: Browser)
        ensures
            r == *self,
    {
        Browser {
            browser_type: self.browser_type.clone(),
            path: self.path.clone(),
            display_name: self.display_name.clone(),
            version: self.version.clone(),
        }
    }
}

/// Errors surfaced by a query.
#[derive(Debug, Clone, Copy, PartialEq, Eq, Structural)]
pub enum FinderError {
    /// One of the three configured patterns is not a valid glob.
    InvalidPattern,
    /// No browser satisfied the configured patterns.
    NotFound,
}

/// The combined filter: not excluded by type, version matches, and the type
/// pattern matches the type or the display name.
pub open spec fn accepts(
    type_pattern: Seq<char>,
    version_pattern: Seq<char>,
    exclude_pattern: Seq<char>,
    b: Browser,
) -> bool {
    &&& !glob_match(exclude_pattern, b.browser_type@)
    &&& glob_match(version_pattern, b.version@)
    &&& (glob_match(type_pattern, b.browser_type@) || glob_match(type_pattern, b.display_name@))
}

/// The records of `candidates` whose type or display name equals `name`, up
/// to ASCII case, in their order.
pub open spec fn named(name: Seq<char>, candidates: Seq<Browser>) -> Seq<Browser> {
    candidates.filter(|b: Browser| same_ignoring_ascii_case(name, b.browser_type@) || same_ignoring_ascii_case(name, b.display_name@))
}

/// Every candidate has a non-empty type.
pub open spec fn types_present(candidates: Seq<Browser>) -> bool {
    forall|i: int| 0 <= i < candidates.len() ==> #[trigger] candidates[i].browser_type@.len() > 0
}

/// The three patterns of a query. Each setter overwrites one of them.
pub struct BrowserFinder {
    browser_type: String,
    version: String,
    exclude: String,
}

impl BrowserFinder {
    pub closed spec fn type_pattern(&self) -> Seq<char> {
        self.browser_type@
    }

    pub closed spec fn version_pattern(&self) -> Seq<char> {
        self.version@
    }

    pub closed spec fn exclude_pattern(&self) -> Seq<char> {
        self.exclude@
    }

    /// All three patterns compile.
    pub open spec fn patterns_valid(&self) -> bool {
        &&& glob_valid(self.type_pattern())
        &&& glob_valid(self.version_pattern())
        &&& glob_valid(self.exclude_pattern())
    }

    /// This finder's filter applied to one record.
    pub open spec fn admits(&self, b: Browser) -> bool {
        accepts(self.type_pattern(), self.version_pattern(), self.exclude_pattern(), b)
    }

    /// The records of `candidates` that this finder admits, in their order.
    pub open spec fn selection(&self, candidates: Seq<Browser>) -> Seq<Browser> {
        candidates.filter(|b: Browser| self.admits(b))
    }

    /// A finder that admits every type and version and excludes nothing.
    pub fn new() -> (r: Self)
        ensures
            r.type_pattern() == seq!['*'],
            r.version_pattern() == seq!['*'],
            r.exclude_pattern() == Seq::<char>::empty(),
    {
        proof {
            reveal_strlit("*");
            reveal_strlit("");
        }
        BrowserFinder {
            browser_type: String::from_str("*"),
            version: String::from_str("*"),
            exclude: String::from_str(""),
        }
    }

    /// Replaces the type pattern.
    pub fn with_type(self, browser_type: String) -> (r: Self)
        ensures
            r.type_pattern() == browser_type@,
            r.version_pattern() == self.version_pattern(),
            r.exclude_pattern() == self.exclude_pattern(),
    {
        BrowserFinder { browser_type, ..self }
    }

    /// Replaces the exclusion pattern.
    pub fn exclude_type(self, browser_type: String) -> (r: Self)
        ensures
            r.exclude_pattern() == browser_type@,
            r.type_pattern() == self.type_pattern(),
            r.version_pattern() == self.version_pattern(),
    {
        BrowserFinder { exclude: browser_type, ..self }
    }

    /// Replaces the version pattern.
    pub fn with_version(self, version: String) -> (r: Self)
        ensures
            r.version_pattern() == version@,
            r.type_pattern() == self.type_pattern(),
            r.exclude_pattern() == self.exclude_pattern(),
    {
        BrowserFinder { version, ..self }
    }
}

/// The three patterns of a finder, compiled.
pub struct CompiledPatterns {
    pub browser: Glob,
    pub version: Glob,
    pub exclude: Glob,
}

impl CompiledPatterns {
    /// Tests one record against the combined filter.
    pub fn matches_patterns(&self, browser: &Browser) -> (r: bool)
        ensures
            r == accepts(self.browser.source(), self.version.source(), self.exclude.source(), *browser),
            self.version.source() == seq!['*'] ==> r == (
                !glob_match(self.exclude.source(), browser.browser_type@)
                && (glob_match(self.browser.source(), browser.browser_type@)
                    || glob_match(self.browser.source(), browser.display_name@))),
            (self.browser.source() == seq!['*'] && self.version.source() == seq!['*']
                && self.exclude.source().len() == 0 && browser.browser_type@.len() > 0) ==> r,
            (self.exclude.source().len() == 0 && browser.browser_type@.len() > 0) ==> r == (
                glob_match(self.version.source(), browser.version@)
                && (glob_match(self.browser.source(), browser.browser_type@)
                    || glob_match(self.browser.source(), browser.display_name@))),
            (is_literal(self.browser.source()) && self.version.source() == seq!['*']
                && self.exclude.source().len() == 0 && browser.browser_type@.len() > 0) ==> r == (
                same_ignoring_ascii_case(self.browser.source(), browser.browser_type@)
                || same_ignoring_ascii_case(self.browser.source(), browser.display_name@)),
    {
        if self.exclude.matches(browser.browser_type.as_str()) {
            return false;
        }
        if !self.version.matches(browser.version.as_str()) {
            return false;
        }
        let by_type = self.browser.matches(browser.browser_type.as_str());
        let by_name = self.browser.matches(browser.display_name.as_str());
        by_type || by_name
    }
}

impl BrowserFinder {
    /// Compiles the three patterns; fails when any of them is malformed.
    pub fn compile(&self) -> (r: Result<CompiledPatterns, FinderError>)
        ensures
            r.is_ok() == self.patterns_valid(),
            r matches Err(e) ==> e == FinderError::InvalidPattern,
            r matches Ok(c) ==> {
                &&& c.browser.source() == self.type_pattern()
                &&& c.version.source() == self.version_pattern()
                &&& c.exclude.source() == self.exclude_pattern()
            },
            ((self.type_pattern() == seq!['*'] || is_literal(self.type_pattern())) && self.version_pattern() == seq!['*']
                && self.exclude_pattern().len() == 0) ==> r.is_ok(),
    {
        let browser = match Glob::compile(self.browser_type.as_str()) {
            Ok(g) => g,
            Err(_) => return Err(FinderError::InvalidPattern),
        };
        let version = match Glob::compile(self.version.as_str()) {
            Ok(g) => g,
            Err(_) => return Err(FinderError::InvalidPattern),
        };
        let exclude = match Glob::compile(self.exclude.as_str()) {
            Ok(g) => g,
            Err(_) => return Err(FinderError::InvalidPattern),
        };
        Ok(CompiledPatterns { browser, version, exclude })
    }

    /// The candidates that satisfy the configured patterns, in their order.
    pub fn select(&self, candidates: &Vec<Browser>) -> (r: Result<Vec<Browser>, FinderError>)
        ensures
            r.is_ok() == self.patterns_valid(),
            r matches Err(e) ==> e == FinderError::InvalidPattern,
            r matches Ok(v) ==> v@ == self.selection(candidates@),
            ((self.type_pattern() == seq!['*'] || is_literal(self.type_pattern())) && self.version_pattern() == seq!['*']
                && self.exclude_pattern().len() == 0) ==> r.is_ok(),
            (self.type_pattern() == seq!['*'] && self.version_pattern() == seq!['*']
                && self.exclude_pattern().len() == 0
                && forall|i: int| 0 <= i < candidates@.len() ==> #[trigger] candidates@[i].browser_type@.len() > 0)
                ==> (r matches Ok(v) && v@ == candidates@),
            (is_literal(self.type_pattern()) && self.version_pattern() == seq!['*']
                && self.exclude_pattern().len() == 0 && types_present(candidates@))
                ==> (r matches Ok(v) && v@ == named(self.type_pattern(), candidates@)),
    {
        let patterns = match self.compile() {
            Ok(c) => c,
            Err(e) => return Err(e),
        };
        let mut selected: Vec<Browser> = Vec::new();
        let mut i: usize = 0;
        while i < candidates.len()
            invariant
                0 <= i <= candidates@.len(),
                patterns.browser.source() == self.type_pattern(),
                patterns.version.source() == self.version_pattern(),
                patterns.exclude.source() == self.exclude_pattern(),
                selected@ == self.selection(candidates@.subrange(0, i as int)),
                (self.type_pattern() == seq!['*'] && self.version_pattern() == seq!['*']
                    && self.exclude_pattern().len() == 0
                    && forall|k: int| 0 <= k < candidates@.len() ==> #[trigger] candidates@[k].browser_type@.len() > 0)
                    ==> selected@ == candidates@.subrange(0, i as int),
                (is_literal(self.type_pattern()) && self.version_pattern() == seq!['*']
                    && self.exclude_pattern().len() == 0 && types_present(candidates@))
                    ==> selected@ == named(self.type_pattern(), candidates@.subrange(0, i as int)),
            decreases candidates@.len() - i,
        {
            let b = &candidates[i];
            proof {
                let pred = |x: Browser| self.admits(x);
                assert(candidates@.subrange(0, i + 1) == candidates@.subrange(0, i as int).push(*b));
                candidates@.subrange(0, i as int).lemma_filter_push(*b, pred);
                let tp = self.type_pattern();
                let lit = |x: Browser| same_ignoring_ascii_case(tp, x.browser_type@) || same_ignoring_ascii_case(tp, x.display_name@);
                candidates@.subrange(0, i as int).lemma_filter_push(*b, lit);
            }
            if patterns.matches_patterns(b) {
                selected.push(b.copy_of());
            }
            i = i + 1;
        }
        proof {
            assert(candidates@.subrange(0, candidates@.len() as int) == candidates@);
        }
        Ok(selected)
    }

    /// The first candidate that satisfies the configured patterns.
    pub fn first(&self, candidates: &Vec<Browser>) -> (r: Result<Browser, FinderError>)
        ensures
            !self.patterns_valid() ==> r == Err::<Browser, FinderError>(FinderError::InvalidPattern),
            self.patterns_valid() && self.selection(candidates@).len() == 0
                ==> r == Err::<Browser, FinderError>(FinderError::NotFound),
            self.patterns_valid() && self.selection(candidates@).len() > 0
                ==> r == Ok::<Browser, FinderError>(self.selection(candidates@)[0]),
            (is_literal(self.type_pattern()) && self.version_pattern() == seq!['*']
                && self.exclude_pattern().len() == 0 && types_present(candidates@)) ==> {
                &&& named(self.type_pattern(), candidates@).len() == 0
                    ==> r == Err::<Browser, FinderError>(FinderError::NotFound)
                &&& named(self.type_pattern(), candidates@).len() > 0
                    ==> r == Ok::<Browser, FinderError>(named(self.type_pattern(), candidates@)[0])
            },
    {
        let selected = match self.select(candidates) {
            Ok(v) => v,
            Err(e) => return Err(e),
        };
        if selected.len() == 0 {
            Err(FinderError::NotFound)
        } else {
            Ok(selected[0].copy_of())
        }
    }
}

/// The records of `candidates` that pass the combined filter, in their order.
pub open spec fn filtered(
    type_pattern: Seq<char>,
    version_pattern: Seq<char>,
    exclude_pattern: Seq<char>,
    candidates: Seq<Browser>,
) -> Seq<Browser> {
    candidates.filter(|b: Browser| accepts(type_pattern, version_pattern, exclude_pattern, b))
}

/// The first candidate whose type (or display name) matches `browser_type`
/// and whose version matches `version`, excluding nothing.
pub fn find_one(candidates: &Vec<Browser>, browser_type: String, version: String) -> (r: Result<Browser, FinderError>)
    ensures
        ({
            let valid = glob_valid(browser_type@) && glob_valid(version@) && glob_valid(Seq::empty());
            let sel = filtered(browser_type@, version@, Seq::empty(), candidates@);
            &&& !valid ==> r == Err::<Browser, FinderError>(FinderError::InvalidPattern)
            &&& valid && sel.len() == 0 ==> r == Err::<Browser, FinderError>(FinderError::NotFound)
            &&& valid && sel.len() > 0 ==> r == Ok::<Browser, FinderError>(sel[0])
        }),
        (is_literal(browser_type@) && version@ == seq!['*'] && types_present(candidates@)) ==> {
            &&& named(browser_type@, candidates@).len() == 0 ==> r == Err::<Browser, FinderError>(FinderError::NotFound)
            &&& named(browser_type@, candidates@).len() > 0
                ==> r == Ok::<Browser, FinderError>(named(browser_type@, candidates@)[0])
        },
{
    let ghost tp = browser_type@;
    let ghost vp = version@;
    let finder = BrowserFinder::new().with_type(browser_type).with_version(version);
    proof {
        let p = |b: Browser| finder.admits(b);
        let q = |b: Browser| accepts(tp, vp, Seq::empty(), b);
        assert(finder.exclude_pattern() =~= Seq::<char>::empty());
        assert(p == q);
    }
    finder.first(candidates)
}

} // verus!
