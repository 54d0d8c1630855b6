use rsbrowsers::{
    linux_browser_type, linux_record, macos_bundles, macos_record, windows_browser_type, windows_record, Browser,
    BrowserFinder, FinderError,
};

fn record(browser_type: &str, display_name: &str, path: &str, version: &str) -> Browser {
    Browser {
        browser_type: browser_type.to_string(),
        path: path.to_string(),
        display_name: display_name.to_string(),
        version: version.to_string(),
    }
}

fn chrome_and_firefox() -> Vec<Browser> {
    vec![
        record("chrome", "Google Chrome", "/usr/bin/google-chrome-stable", "126.0.6478.126"),
        record("firefox", "Firefox Web Browser", "firefox", "128.0.3"),
    ]
}

fn types(browsers: &[Browser]) -> Vec<String> {
    browsers.iter().map(|b| b.browser_type.clone()).collect()
}

#[test]
fn test_all() {
    let candidates = vec![
        linux_record("google-chrome", "Google Chrome".to_string(), "/usr/bin/google-chrome-stable".to_string(), "126.0".to_string())
            .unwrap(),
        linux_record("firefox", "Firefox Web Browser".to_string(), "firefox".to_string(), "128.0.3".to_string()).unwrap(),
    ];
    let browsers = types(&BrowserFinder::new().select(&candidates).unwrap());
    assert!(browsers.contains(&"chrome".to_string()));
    assert!(browsers.contains(&"firefox".to_string()));
}

#[test]
fn default_finder_returns_both_installed_browsers() {
    let found = BrowserFinder::new().select(&chrome_and_firefox()).unwrap();
    assert_eq!(found.len(), 2);
    assert_eq!(types(&found), vec!["chrome".to_string(), "firefox".to_string()]);
    assert!(found.iter().all(|b| !b.path.is_empty()));
}

#[test]
fn excluding_chrome_leaves_firefox() {
    let found = BrowserFinder::new().exclude_type("chrome*".to_string()).select(&chrome_and_firefox()).unwrap();
    assert_eq!(found.len(), 1);
    assert_eq!(found[0].browser_type, "firefox");
}

#[test]
fn unknown_type_is_not_found() {
    let finder = BrowserFinder::new().with_type("doesnotexist-browser".to_string());
    assert_eq!(finder.first(&chrome_and_firefox()).err(), Some(FinderError::NotFound));
    assert_eq!(finder.select(&chrome_and_firefox()).unwrap().len(), 0);
}

#[test]
fn empty_version_passes_default_version_pattern() {
    let candidates = vec![record("chrome", "Google Chrome", "/opt/chrome", "")];
    let found = BrowserFinder::new().select(&candidates).unwrap();
    assert_eq!(found.len(), 1);
    assert_eq!(found[0].version, "");
}

#[test]
fn type_pattern_matches_type_or_display_name_ignoring_case() {
    let candidates = chrome_and_firefox();
    let by_type = BrowserFinder::new().with_type("CHROM*".to_string()).select(&candidates).unwrap();
    assert_eq!(types(&by_type), vec!["chrome".to_string()]);
    let by_name = BrowserFinder::new().with_type("firefox web*".to_string()).select(&candidates).unwrap();
    assert_eq!(types(&by_name), vec!["firefox".to_string()]);
    let none = BrowserFinder::new().with_type("safari".to_string()).select(&candidates).unwrap();
    assert!(none.is_empty());
}

#[test]
fn default_selection_covers_type_selections() {
    let candidates = chrome_and_firefox();
    let all = BrowserFinder::new().select(&candidates).unwrap();
    for t in ["chrome", "firefox"] {
        let some = BrowserFinder::new().with_type(t.to_string()).select(&candidates).unwrap();
        assert_eq!(some.len(), 1);
        assert!(types(&all).contains(&some[0].browser_type));
    }
}

#[test]
fn exclusion_never_returns_matching_type() {
    let found = BrowserFinder::new().exclude_type("f?refox".to_string()).select(&chrome_and_firefox()).unwrap();
    assert_eq!(types(&found), vec!["chrome".to_string()]);
}

#[test]
fn version_pattern_filters() {
    let found = BrowserFinder::new().with_version("128.*".to_string()).select(&chrome_and_firefox()).unwrap();
    assert_eq!(types(&found), vec!["firefox".to_string()]);
}

#[test]
fn repeated_selection_is_equal() {
    let finder = BrowserFinder::new().with_type("*i*".to_string());
    let a = types(&finder.select(&chrome_and_firefox()).unwrap());
    let b = types(&finder.select(&chrome_and_firefox()).unwrap());
    assert_eq!(a, b);
    assert_eq!(a, vec!["firefox".to_string()]);
}

#[test]
fn malformed_pattern_is_rejected() {
    let finder = BrowserFinder::new().with_type("***".to_string());
    assert_eq!(finder.select(&chrome_and_firefox()).err(), Some(FinderError::InvalidPattern));
    assert_eq!(finder.first(&chrome_and_firefox()).err(), Some(FinderError::InvalidPattern));
    assert!(BrowserFinder::new().with_version("**x".to_string()).compile().is_err());
    assert!(BrowserFinder::new().exclude_type("a***".to_string()).compile().is_err());
}

#[test]
fn first_returns_first_selected() {
    let b = BrowserFinder::new().first(&chrome_and_firefox()).unwrap();
    assert_eq!(b.browser_type, "chrome");
}

#[test]
fn linux_table_accepts_both_naming_conventions() {
    assert_eq!(linux_browser_type("brave-browser"), Some("brave".to_string()));
    assert_eq!(linux_browser_type("brave_brave"), Some("brave".to_string()));
    assert_eq!(linux_browser_type("vivaldi_vivaldi-stable"), Some("vivaldi".to_string()));
    assert_eq!(linux_browser_type("gedit"), None);
    assert!(linux_record("gedit", "Text Editor".to_string(), "gedit".to_string(), String::new()).is_none());
}

#[test]
fn windows_record_uses_table_and_unquotes_path() {
    let b = windows_record(
        "Google Chrome",
        Some("Google Chrome".to_string()),
        "\"C:\\Program Files\\Google\\Chrome\\Application\\chrome.exe\"",
        "126.0.6478.127".to_string(),
    )
    .unwrap();
    assert_eq!(b.browser_type, "chrome");
    assert_eq!(b.path, "C:\\Program Files\\Google\\Chrome\\Application\\chrome.exe");
    assert_eq!(b.display_name, "Google Chrome");
    let by_key = windows_record("Mozilla Firefox", None, "C:\\firefox.exe", String::new()).unwrap();
    assert_eq!(by_key.browser_type, "firefox");
    assert_eq!(by_key.display_name, "Mozilla Firefox");
    assert_eq!(by_key.path, "C:\\firefox.exe");
    assert!(windows_record("Some Tool", None, "tool.exe", String::new()).is_none());
    assert_eq!(windows_browser_type("Internet Explorer"), Some("msie".to_string()));
}

#[test]
fn macos_record_resolves_executable_and_name() {
    let b = macos_record(
        "chrome",
        "/Applications/Google Chrome.app",
        None,
        Some("Chrome".to_string()),
        Some("Google Chrome".to_string()),
        Some("126.0".to_string()),
    )
    .unwrap();
    assert_eq!(b.path, "/Applications/Google Chrome.app/Contents/MacOS/Google Chrome");
    assert_eq!(b.display_name, "Chrome");
    assert_eq!(b.version, "126.0");
    let safari = macos_record("safari", "/Applications/Safari.app", Some("Safari".to_string()), None, Some("Safari".to_string()), None)
        .unwrap();
    assert_eq!(safari.path, "/Applications/Safari.app");
    assert_eq!(safari.version, "");
    let bare = macos_record("zen", "/Applications/Zen.app", None, None, Some("zen".to_string()), None).unwrap();
    assert_eq!(bare.display_name, "zen");
    assert!(macos_record("zen", "/Applications/Zen.app", None, None, None, None).is_none());
}

#[test]
fn macos_bundle_table_contents() {
    let bundles = macos_bundles();
    assert_eq!(bundles.len(), 36);
    assert_eq!(bundles[0].browser_type, "basilisk");
    assert_eq!(bundles[1].version_key, "CFBundleVersion");
    assert!(bundles.iter().any(|e| e.browser_type == "safari" && e.bundle_id == "com.apple.Safari"));
}

#[test]
fn find_one_reports_missing_browser() {
    let r = rsbrowsers::find_one(&chrome_and_firefox(), "doesnotexist-browser".to_string(), "*".to_string());
    assert_eq!(r.err(), Some(FinderError::NotFound));
    let firefox = rsbrowsers::find_one(&chrome_and_firefox(), "firefox".to_string(), "128*".to_string()).unwrap();
    assert_eq!(firefox.browser_type, "firefox");
    let r = rsbrowsers::find_one(&chrome_and_firefox(), "firefox".to_string(), "127*".to_string());
    assert_eq!(r.err(), Some(FinderError::NotFound));
}
