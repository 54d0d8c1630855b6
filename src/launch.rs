//! How a discovered browser is started on each platform.
use vstd::prelude::*;
use vstd::string::*;
use crate::finder::{named, types_present, Browser, BrowserFinder, FinderError};
use crate::pattern::is_literal;
use crate::text::same_text;

verus! {

broadcast use vstd::seq_lib::group_seq_properties;

/// The host operating system family.
#[derive(Debug, Clone, Copy, PartialEq, Eq, Structural)]
pub enum Platform {
    MacOs,
    Windows,
    Linux,
}

/// A process-spawn request.
pub enum LaunchPlan {
    /// Execute `program` directly with `args`.
    Direct { program: String, args: Vec<String> },
    /// Run `command` through `sh -c`.
    Shell { command: String },
}

/// The views of a list of texts.
pub open spec fn texts(v: Seq<String>) -> Seq<Seq<char>> {
    v.map_values(|s: String| s@)
}

/// The texts joined by single spaces.
pub open spec fn join_spaced(args: Seq<Seq<char>>) -> Seq<char>
    decreases args.len(),
{
    if args.len() == 0 {
        Seq::empty()
    } else if args.len() == 1 {
        args[0]
    } else {
        join_spaced(args.drop_last()) + " "@ + args.last()
    }
}

/// The flags handed to the macOS `open` helper before the bundle path: wait
/// for the application to exit, start a new instance, with a fresh state.
pub open spec fn open_helper_flags() -> Seq<Seq<char>> {
    seq!["--wait-apps"@, "--new"@, "--fresh"@, "-a"@]
}

/// What `plan_launch` hands to the spawn primitive.
pub open spec fn planned(platform: Platform, b: Browser, args: Seq<Seq<char>>, plan: LaunchPlan) -> bool {
    match platform {
        Platform::Linux => plan matches LaunchPlan::Shell { command }
            && command@ == b.path@ + " "@ + join_spaced(args),
        _ => if platform == Platform::MacOs && b.browser_type@ == "safari"@ {
            plan matches LaunchPlan::Direct { program, args: a }
                && program@ == "open"@
                && texts(a@) == open_helper_flags().push(b.path@) + args
        } else {
            plan matches LaunchPlan::Direct { program, args: a }
                && program@ == b.path@
                && texts(a@) == args
        },
    }
}

/// A copy of the arguments appended to `out`.
fn append_args(out: &mut Vec<String>, args: &Vec<String>)
    ensures
        texts(final(out)@) == texts(old(out)@) + texts(args@),
{
    let mut i: usize = 0;
    while i < args.len()
        invariant
            i <= args@.len(),
            texts(out@) == texts(old(out)@) + texts(args@.subrange(0, i as int)),
        decreases args@.len() - i,
    {
        let ghost prev = out@;
        out.push(args[i].clone());
        assert(texts(out@) =~= texts(prev).push(args@[i as int]@));
        assert(texts(args@.subrange(0, i + 1)) =~= texts(args@.subrange(0, i as int)).push(args@[i as int]@));
        assert(texts(out@) =~= texts(old(out)@) + texts(args@.subrange(0, i + 1)));
        i = i + 1;
    }
    assert(args@.subrange(0, args@.len() as int) =~= args@);
}

/// The arguments joined by single spaces.
fn join_args(args: &Vec<String>) -> (r: String)
    ensures
        r@ == join_spaced(texts(args@)),
{
    let mut s = String::new();
    let mut i: usize = 0;
    while i < args.len()
        invariant
            i <= args@.len(),
            s@ == join_spaced(texts(args@.subrange(0, i as int))),
        decreases args@.len() - i,
    {
        let ghost before = texts(args@.subrange(0, i as int));
        let ghost after = texts(args@.subrange(0, i + 1));
        assert(after.drop_last() =~= before);
        if i > 0 {
            s.append(" ");
        }
        s.append(args[i].as_str());
        i = i + 1;
    }
    assert(args@.subrange(0, args@.len() as int) =~= args@);
    s
}

/// The spawn request for `browser` with the caller's arguments: on macOS
/// Safari goes through the `open` helper, since its launch target is the
/// bundle; on Linux the command and the arguments run through a shell, since
/// desktop-entry commands may hold shell syntax; elsewhere the path is
/// executed directly.
pub fn plan_launch(platform: Platform, browser: &Browser, args: &Vec<String>) -> (r: LaunchPlan)
    ensures
        planned(platform, *browser, texts(args@), r),
{
    proof {
        reveal_strlit("safari");
    }
    match platform {
        Platform::Linux => {
            let command = browser.path.clone().concat(" ");
            let joined = join_args(args);
            LaunchPlan::Shell { command: command.concat(joined.as_str()) }
        },
        _ => {
            if platform == Platform::MacOs && same_text(browser.browser_type.as_str(), "safari") {
                let mut a: Vec<String> = Vec::new();
                a.push(String::from_str("--wait-apps"));
                a.push(String::from_str("--new"));
                a.push(String::from_str("--fresh"));
                a.push(String::from_str("-a"));
                a.push(browser.path.clone());
                assert(texts(a@) =~= open_helper_flags().push(browser.path@));
                append_args(&mut a, args);
                LaunchPlan::Direct { program: String::from_str("open"), args: a }
            } else {
                let mut a: Vec<String> = Vec::new();
                append_args(&mut a, args);
                assert(texts(a@) =~= texts(args@));
                LaunchPlan::Direct { program: browser.path.clone(), args: a }
            }
        },
    }
}

/// Resolves the browser to launch, the first that the finder selects among
/// `candidates`, and plans its launch.
pub fn resolve_launch(
    finder: &BrowserFinder,
    candidates: &Vec<Browser>,
    platform: Platform,
    args: &Vec<String>,
) -> (r: Result<(Browser, LaunchPlan), FinderError>)
    ensures
        !finder.patterns_valid() ==> (r matches Err(e) && e == FinderError::InvalidPattern),
        finder.patterns_valid() && finder.selection(candidates@).len() == 0
            ==> (r matches Err(e) && e == FinderError::NotFound),
        finder.patterns_valid() && finder.selection(candidates@).len() > 0 ==> (r matches Ok((b, plan)) && {
            &&& b == finder.selection(candidates@)[0]
            &&& planned(platform, b, texts(args@), plan)
        }),
        (is_literal(finder.type_pattern()) && finder.version_pattern() == seq!['*']
            && finder.exclude_pattern().len() == 0 && types_present(candidates@)) ==> {
            &&& named(finder.type_pattern(), candidates@).len() == 0
                ==> (r matches Err(e) && e == FinderError::NotFound)
            &&& named(finder.type_pattern(), candidates@).len() > 0 ==> (r matches Ok((b, plan)) && {
                &&& b == named(finder.type_pattern(), candidates@)[0]
                &&& planned(platform, b, texts(args@), plan)
            })
        },
{
    let browser = match finder.first(candidates) {
        Ok(b) => b,
        Err(e) => return Err(e),
    };
    let plan = plan_launch(platform, &browser, args);
    Ok((browser, plan))
}

} // verus!
