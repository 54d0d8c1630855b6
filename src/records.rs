//! Normalisation of raw per-platform metadata into `Browser` records.
use vstd::prelude::*;
use vstd::string::*;
use crate::finder::Browser;
use crate::tables::{macos_bundle_table, linux_browser_type, linux_type_of, windows_browser_type, windows_type_of};
use crate::text::{same_text, unquote, unquote_spec};

verus! {

/// The display name of a macOS bundle: the user-facing name, else the
/// internal bundle name, else the canonical type.
pub open spec fn bundle_display_name(
    display: Option<Seq<char>>,
    bundle_name: Option<Seq<char>>,
    browser_type: Seq<char>,
) -> Seq<char> {
    match display {
        Some(d) => d,
        None => match bundle_name {
            Some(n) => n,
            None => browser_type,
        },
    }
}

/// Where a macOS bundle is launched from: the bundle itself for Safari,
/// otherwise the executable inside `Contents/MacOS`.
pub open spec fn bundle_executable(browser_type: Seq<char>, app_path: Seq<char>, executable: Seq<char>) -> Seq<char> {
    if browser_type == "safari"@ {
        app_path
    } else {
        app_path + "/Contents/MacOS/"@ + executable
    }
}

/// Lifts an optional text to its view.
pub open spec fn opt_view(o: Option<String>) -> Option<Seq<char>> {
    match o {
        Some(s) => Some(s@),
        None => None,
    }
}

/// The record of one macOS bundle found at `app_path`, given what its
/// manifest holds. A manifest without an executable name yields no record;
/// a missing version leaves the version empty. The type is one of the
/// macOS bundle table.
pub fn macos_record(
    browser_type: &str,
    app_path: &str,
    display: Option<String>,
    bundle_name: Option<String>,
    executable: Option<String>,
    version: Option<String>,
) -> (r: Option<Browser>)
    requires
        exists|i: int| 0 <= i < macos_bundle_table().len() && (#[trigger] macos_bundle_table()[i]).0 == browser_type@,
    ensures
        executable is None ==> r is None,
        executable matches Some(e) ==> r matches Some(b) && {
            &&& b.browser_type@ == browser_type@
            &&& b.display_name@ == bundle_display_name(opt_view(display), opt_view(bundle_name), browser_type@)
            &&& b.path@ == bundle_executable(browser_type@, app_path@, e@)
            &&& b.version@ == match version {
                Some(v) => v@,
                None => Seq::<char>::empty(),
            }
        },
{
    let executable = match executable {
        Some(e) => e,
        None => return None,
    };
    let display_name = match display {
        Some(d) => d,
        None => match bundle_name {
            Some(n) => n,
            None => String::from_str(browser_type),
        },
    };
    proof {
        reveal_strlit("safari");
    }
    let path = if same_text(browser_type, "safari") {
        String::from_str(app_path)
    } else {
        let p = String::from_str(app_path).concat("/Contents/MacOS/");
        p.concat(executable.as_str())
    };
    let version = match version {
        Some(v) => v,
        None => String::new(),
    };
    Some(Browser { browser_type: String::from_str(browser_type), path, display_name, version })
}

/// The record of one program registered under the Windows start-menu key
/// `key`. The display name is the registered one, else the key; a program
/// whose display name is not in the Windows table yields no record. The path
/// is the open command without its surrounding quotes.
pub fn windows_record(key: &str, registered_name: Option<String>, command: &str, version: String) -> (r: Option<Browser>)
    ensures
        ({
            let name = match registered_name {
                Some(n) => n@,
                None => key@,
            };
            &&& windows_type_of(name) is None ==> r is None
            &&& windows_type_of(name) matches Some(t) ==> r matches Some(b) && {
                &&& b.browser_type@ == t
                &&& t.len() > 0
                &&& b.display_name@ == name
                &&& b.path@ == unquote_spec(command@)
                &&& b.version == version
            }
        }),
{
    let display_name = match registered_name {
        Some(n) => n,
        None => String::from_str(key),
    };
    match windows_browser_type(display_name.as_str()) {
        None => None,
        Some(browser_type) => {
            let path = unquote(command);
            Some(Browser { browser_type, path, display_name, version })
        },
    }
}

/// The record of one desktop entry whose file has base name `stem`; an entry
/// whose base name is not in the Linux table yields no record.
pub fn linux_record(stem: &str, name: String, command: String, version: String) -> (r: Option<Browser>)
    ensures
        linux_type_of(stem@) is None ==> r is None,
        linux_type_of(stem@) matches Some(t) ==> r matches Some(b) && {
            &&& b.browser_type@ == t
            &&& t.len() > 0
            &&& b.display_name == name
            &&& b.path == command
            &&& b.version == version
        },
{
    match linux_browser_type(stem) {
        None => None,
        Some(browser_type) => Some(Browser { browser_type, path: command, display_name: name, version }),
    }
}

} // verus!
