//! Discovery of installed web browsers: platform mapping tables, record
//! normalisation, glob-based selection and launch planning. Enumerating the
//! operating system's native metadata and spawning processes is left to the
//! caller, which hands the raw values to this library.

mod finder;
mod launch;
mod laws;
mod pattern;
mod pe;
mod records;
mod tables;
mod text;
mod version;

pub use finder::{accepts, filtered, find_one, named, types_present, Browser, BrowserFinder, CompiledPatterns, FinderError};
pub use launch::{join_spaced, open_helper_flags, plan_launch, planned, resolve_launch, texts, LaunchPlan, Platform};
pub use laws::{
    lemma_full_selection_covers, lemma_named_within, lemma_selected_match_type, lemma_selected_not_excluded,
    lemma_selection_repeatable,
};
pub use pe::{decimal, digit_char, format_version, outcome_version, pe_version_text, version_from_outcomes, version_text, FileVersion};
pub use pattern::{fold_ascii, glob_match, glob_valid, is_literal, same_ignoring_ascii_case, Glob};
pub use records::{bundle_display_name, bundle_executable, linux_record, macos_record, opt_view, windows_record};
pub use tables::{
    bundle_view, linux_browser_type, linux_type_of, macos_bundle_table, macos_bundles, windows_browser_type,
    windows_type_of, BundleEntry,
};
pub use text::{
    ends_with_placeholder, is_blank, is_blank_char, launch_command, launch_command_spec, same_text, trim_end,
    trim_end_spec, unquote, unquote_spec,
};
pub use version::{probe_version, probe_version_spec, regex_first_match, regex_valid, Scanner, VERSION_EXPR};
