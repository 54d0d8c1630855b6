use rsbrowsers::{
    launch_command, plan_launch, probe_version, resolve_launch, same_text, trim_end, unquote, Browser,
    BrowserFinder, FinderError, LaunchPlan, Platform,
};

fn record(browser_type: &str, path: &str) -> Browser {
    Browser {
        browser_type: browser_type.to_string(),
        path: path.to_string(),
        display_name: browser_type.to_string(),
        version: "1.0".to_string(),
    }
}

#[test]
fn placeholder_is_stripped_in_either_case() {
    assert_eq!(launch_command("/usr/bin/firefox %u"), "/usr/bin/firefox");
    assert_eq!(launch_command("/usr/bin/chromium %U"), "/usr/bin/chromium");
    assert_eq!(launch_command("/usr/bin/chromium \t %U"), "/usr/bin/chromium");
    assert_eq!(launch_command("vivaldi-stable"), "vivaldi-stable");
    assert_eq!(launch_command("%u"), "");
}

#[test]
fn text_helpers() {
    assert_eq!(unquote("\"a b\""), "a b");
    assert_eq!(unquote("a b"), "a b");
    assert_eq!(unquote("\""), "");
    assert_eq!(trim_end("ab  \n"), "ab");
    assert!(same_text("chrome", "chrome"));
    assert!(!same_text("chrome", "Chrome"));
}

#[test]
fn version_is_first_dotted_number() {
    assert_eq!(probe_version(Some("Mozilla Firefox 128.0.3\n")), "128.0.3");
    assert_eq!(probe_version(Some("Google Chrome 126.0.6478.126 ")), "126.0.6478.126");
    assert_eq!(probe_version(Some("Chromium 2 build 7.1 and 8.2")), "7.1");
    assert_eq!(probe_version(Some("no version here 42")), "");
    assert_eq!(probe_version(None), "");
}

#[test]
fn firefox_launch_on_linux_goes_through_shell() {
    let candidates = vec![record("chrome", "google-chrome"), record("firefox", "firefox")];
    let finder = BrowserFinder::new().with_type("firefox".to_string());
    let args = vec!["https://example.com".to_string()];
    let (b, plan) = resolve_launch(&finder, &candidates, Platform::Linux, &args).unwrap();
    assert_eq!(b.browser_type, "firefox");
    match plan {
        LaunchPlan::Shell { command } => assert_eq!(command, "firefox https://example.com"),
        LaunchPlan::Direct { .. } => panic!("expected a shell command"),
    }
}

#[test]
fn launch_without_firefox_is_not_found() {
    let candidates = vec![record("chrome", "google-chrome")];
    let finder = BrowserFinder::new().with_type("firefox".to_string());
    let r = resolve_launch(&finder, &candidates, Platform::Linux, &vec![]);
    assert_eq!(r.err(), Some(FinderError::NotFound));
}

#[test]
fn safari_launch_uses_open_helper() {
    let args = vec!["https://example.com".to_string(), "x".to_string()];
    match plan_launch(Platform::MacOs, &record("safari", "/Applications/Safari.app"), &args) {
        LaunchPlan::Direct { program, args } => {
            assert_eq!(program, "open");
            assert_eq!(
                args,
                vec!["--wait-apps", "--new", "--fresh", "-a", "/Applications/Safari.app", "https://example.com", "x"]
            );
        }
        LaunchPlan::Shell { .. } => panic!("expected a direct spawn"),
    }
}

#[test]
fn other_browsers_are_executed_directly() {
    let args = vec!["a".to_string(), "b c".to_string()];
    match plan_launch(Platform::Windows, &record("chrome", "C:\\chrome.exe"), &args) {
        LaunchPlan::Direct { program, args } => {
            assert_eq!(program, "C:\\chrome.exe");
            assert_eq!(args, vec!["a", "b c"]);
        }
        LaunchPlan::Shell { .. } => panic!("expected a direct spawn"),
    }
    match plan_launch(Platform::Linux, &record("chrome", "google-chrome"), &args) {
        LaunchPlan::Shell { command } => assert_eq!(command, "google-chrome a b c"),
        LaunchPlan::Direct { .. } => panic!("expected a shell command"),
    }
    match plan_launch(Platform::Linux, &record("chrome", "google-chrome"), &vec![]) {
        LaunchPlan::Shell { command } => assert_eq!(command, "google-chrome "),
        LaunchPlan::Direct { .. } => panic!("expected a shell command"),
    }
}

#[test]
fn placeholder_trim_removes_all_unicode_whitespace() {
    assert_eq!(launch_command("x\u{0C}%u"), "x");
    assert_eq!(launch_command("x\u{0B}\u{A0}\u{3000} %U"), "x");
    assert_eq!(launch_command("x\u{0C}"), "x\u{0C}");
}

#[test]
fn scanner_is_reused_across_probes() {
    let scanner = rsbrowsers::Scanner::for_versions().unwrap();
    assert_eq!(scanner.probe(Some("Vivaldi 6.8.3381.48 stable")), "6.8.3381.48");
    assert_eq!(scanner.probe(Some("v1")), "");
    assert_eq!(scanner.probe(None), "");
}

#[test]
fn unreadable_image_has_empty_version() {
    assert_eq!(rsbrowsers::pe_version_text(&[]), "");
    assert_eq!(rsbrowsers::pe_version_text(b"MZ not really an executable"), "");
}

#[test]
fn version_outcomes_are_formatted() {
    assert_eq!(rsbrowsers::format_version((126, 0, 6478, 127)), "126.0.6478.127");
    assert_eq!(rsbrowsers::format_version((0, 0, 0, 0)), "0.0.0.0");
    assert_eq!(rsbrowsers::version_from_outcomes(Ok(Some((11, 0, 19041, 1))), None), "11.0.19041.1");
    assert_eq!(rsbrowsers::version_from_outcomes(Ok(None), Some((1, 2, 3, 4))), "");
    assert_eq!(rsbrowsers::version_from_outcomes(Err(true), Some((65535, 10, 9, 100))), "65535.10.9.100");
    assert_eq!(rsbrowsers::version_from_outcomes(Err(true), None), "");
    assert_eq!(rsbrowsers::version_from_outcomes(Err(false), Some((1, 2, 3, 4))), "");
}
