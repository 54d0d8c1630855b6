//! General facts about selection.
use vstd::prelude::*;
use crate::finder::{named, Browser, BrowserFinder};
use crate::pattern::{glob_match, same_ignoring_ascii_case};

verus! {

broadcast use vstd::seq_lib::group_seq_properties;

/// Every selected record matches the type pattern on its type or on its
/// display name.
pub proof fn lemma_selected_match_type(f: BrowserFinder, candidates: Seq<Browser>)
    ensures
        forall|i: int| 0 <= i < f.selection(candidates).len() ==>
            glob_match(f.type_pattern(), #[trigger] f.selection(candidates)[i].browser_type@)
            || glob_match(f.type_pattern(), f.selection(candidates)[i].display_name@),
{
    let pred = |b: Browser| f.admits(b);
    assert forall|i: int| 0 <= i < f.selection(candidates).len() implies
        glob_match(f.type_pattern(), #[trigger] f.selection(candidates)[i].browser_type@)
        || glob_match(f.type_pattern(), f.selection(candidates)[i].display_name@) by {
        candidates.lemma_filter_pred(pred, i);
    }
}

/// No selected record has a type that the exclusion pattern matches.
pub proof fn lemma_selected_not_excluded(f: BrowserFinder, candidates: Seq<Browser>)
    ensures
        forall|i: int| 0 <= i < f.selection(candidates).len() ==>
            !glob_match(f.exclude_pattern(), #[trigger] f.selection(candidates)[i].browser_type@),
{
    let pred = |b: Browser| f.admits(b);
    assert forall|i: int| 0 <= i < f.selection(candidates).len() implies
        !glob_match(f.exclude_pattern(), #[trigger] f.selection(candidates)[i].browser_type@) by {
        candidates.lemma_filter_pred(pred, i);
    }
}

/// Where a finder selects every candidate (as the default finder does on
/// records with non-empty types), whatever any other finder selects from the
/// same candidates is among its results.
pub proof fn lemma_full_selection_covers(all: BrowserFinder, other: BrowserFinder, candidates: Seq<Browser>)
    requires
        all.selection(candidates) == candidates,
    ensures
        forall|b: Browser| #[trigger] other.selection(candidates).contains(b) ==> all.selection(candidates).contains(b),
{
    let pred = |b: Browser| other.admits(b);
    assert forall|b: Browser| #[trigger] other.selection(candidates).contains(b) implies
        all.selection(candidates).contains(b) by {
        candidates.lemma_filter_contains_rev(pred, b);
    }
}

/// The records whose type or display name equals a name, up to ASCII case,
/// are among the candidates they were drawn from.
pub proof fn lemma_named_within(name: Seq<char>, candidates: Seq<Browser>)
    ensures
        forall|b: Browser| #[trigger] named(name, candidates).contains(b) ==> candidates.contains(b),
{
    let pred = |b: Browser| same_ignoring_ascii_case(name, b.browser_type@) || same_ignoring_ascii_case(name, b.display_name@);
    assert forall|b: Browser| #[trigger] named(name, candidates).contains(b) implies candidates.contains(b) by {
        candidates.lemma_filter_contains_rev(pred, b);
    }
}

/// Two queries with the same patterns over the same candidates select the
/// same records in the same order.
pub proof fn lemma_selection_repeatable(f: BrowserFinder, g: BrowserFinder, candidates: Seq<Browser>)
    requires
        f.type_pattern() == g.type_pattern(),
        f.version_pattern() == g.version_pattern(),
        f.exclude_pattern() == g.exclude_pattern(),
    ensures
        f.selection(candidates) == g.selection(candidates),
{
    let p = |b: Browser| f.admits(b);
    let q = |b: Browser| g.admits(b);
    assert(p == q);
}

} // verus!
