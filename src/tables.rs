//! The compiled-in tables that map native application identifiers to
//! canonical browser types.
use vstd::prelude::*;
use vstd::string::*;
use crate::text::same_text;

verus! {

/// The canonical type registered under a Windows start-menu display name.
pub open spec fn windows_type_of(key: Seq<char>) -> Option<Seq<char>> {
    if key == "Ablaze Floorp"@ {
        Some("floorp"@)
    } else if key == "Basilisk"@ {
        Some("basilisk"@)
    } else if key == "Brave"@ {
        Some("brave"@)
    } else if key == "Brave Beta"@ {
        Some("brave-beta"@)
    } else if key == "Brave Nightly"@ {
        Some("brave-nightly"@)
    } else if key == "Chromium"@ {
        Some("chromium"@)
    } else if key == "Firefox Developer Edition"@ {
        Some("firefox-developer"@)
    } else if key == "Firefox Nightly"@ {
        Some("firefox-nightly"@)
    } else if key == "Google Chrome"@ {
        Some("chrome"@)
    } else if key == "Google Chrome Canary"@ {
        Some("chrome-canary"@)
    } else if key == "Internet Explorer"@ {
        Some("msie"@)
    } else if key == "LibreWolf"@ {
        Some("librewolf"@)
    } else if key == "Microsoft Edge"@ {
        Some("msedge"@)
    } else if key == "Microsoft Edge Beta"@ {
        Some("msedge-beta"@)
    } else if key == "Microsoft Edge Dev"@ {
        Some("msedge-dev"@)
    } else if key == "Microsoft Edge Canary"@ {
        Some("msedge-canary"@)
    } else if key == "Mozilla Firefox"@ {
        Some("firefox"@)
    } else if key == "Opera Stable"@ {
        Some("opera"@)
    } else if key == "Opera beta"@ {
        Some("opera-beta"@)
    } else if key == "Opera developer"@ {
        Some("opera-developer"@)
    } else if key == "Pale Moon"@ {
        Some("pale-moon"@)
    } else if key == "Waterfox"@ {
        Some("waterfox"@)
    } else {
        None
    }
}

/// Looks a registry display name up in the Windows table.
pub fn windows_browser_type(key: &str) -> (r: Option<String>)
    ensures
        r matches Some(t) ==> windows_type_of(key@) == Some(t@),
        r is None ==> windows_type_of(key@) is None,
        r matches Some(t) ==> t@.len() > 0,
{
    if same_text(key, "Ablaze Floorp") {
        proof {
            reveal_strlit("floorp");
        }
        return Some(String::from_str("floorp"));
    }
    if same_text(key, "Basilisk") {
        proof {
            reveal_strlit("basilisk");
        }
        return Some(String::from_str("basilisk"));
    }
    if same_text(key, "Brave") {
        proof {
            reveal_strlit("brave");
        }
        return Some(String::from_str("brave"));
    }
    if same_text(key, "Brave Beta") {
        proof {
            reveal_strlit("brave-beta");
        }
        return Some(String::from_str("brave-beta"));
    }
    if same_text(key, "Brave Nightly") {
        proof {
            reveal_strlit("brave-nightly");
        }
        return Some(String::from_str("brave-nightly"));
    }
    if same_text(key, "Chromium") {
        proof {
            reveal_strlit("chromium");
        }
        return Some(String::from_str("chromium"));
    }
    if same_text(key, "Firefox Developer Edition") {
        proof {
            reveal_strlit("firefox-developer");
        }
        return Some(String::from_str("firefox-developer"));
    }
    if same_text(key, "Firefox Nightly") {
        proof {
            reveal_strlit("firefox-nightly");
        }
        return Some(String::from_str("firefox-nightly"));
    }
    if same_text(key, "Google Chrome") {
        proof {
            reveal_strlit("chrome");
        }
        return Some(String::from_str("chrome"));
    }
    if same_text(key, "Google Chrome Canary") {
        proof {
            reveal_strlit("chrome-canary");
        }
        return Some(String::from_str("chrome-canary"));
    }
    if same_text(key, "Internet Explorer") {
        proof {
            reveal_strlit("msie");
        }
        return Some(String::from_str("msie"));
    }
    if same_text(key, "LibreWolf") {
        proof {
            reveal_strlit("librewolf");
        }
        return Some(String::from_str("librewolf"));
    }
    if same_text(key, "Microsoft Edge") {
        proof {
            reveal_strlit("msedge");
        }
        return Some(String::from_str("msedge"));
    }
    if same_text(key, "Microsoft Edge Beta") {
        proof {
            reveal_strlit("msedge-beta");
        }
        return Some(String::from_str("msedge-beta"));
    }
    if same_text(key, "Microsoft Edge Dev") {
        proof {
            reveal_strlit("msedge-dev");
        }
        return Some(String::from_str("msedge-dev"));
    }
    if same_text(key, "Microsoft Edge Canary") {
        proof {
            reveal_strlit("msedge-canary");
        }
        return Some(String::from_str("msedge-canary"));
    }
    if same_text(key, "Mozilla Firefox") {
        proof {
            reveal_strlit("firefox");
        }
        return Some(String::from_str("firefox"));
    }
    if same_text(key, "Opera Stable") {
        proof {
            reveal_strlit("opera");
        }
        return Some(String::from_str("opera"));
    }
    if same_text(key, "Opera beta") {
        proof {
            reveal_strlit("opera-beta");
        }
        return Some(String::from_str("opera-beta"));
    }
    if same_text(key, "Opera developer") {
        proof {
            reveal_strlit("opera-developer");
        }
        return Some(String::from_str("opera-developer"));
    }
    if same_text(key, "Pale Moon") {
        proof {
            reveal_strlit("pale-moon");
        }
        return Some(String::from_str("pale-moon"));
    }
    if same_text(key, "Waterfox") {
        proof {
            reveal_strlit("waterfox");
        }
        return Some(String::from_str("waterfox"));
    }
    None
}

/// The canonical type of a desktop entry, by the entry file's base name.
/// A vendor may appear under a hyphenated and an underscore-joined name.
pub open spec fn linux_type_of(key: Seq<char>) -> Option<Seq<char>> {
    if key == "brave-browser"@ {
        Some("brave"@)
    } else if key == "brave_brave"@ {
        Some("brave"@)
    } else if key == "brave-browser-beta"@ {
        Some("brave-beta"@)
    } else if key == "brave-browser-nightly"@ {
        Some("brave-nightly"@)
    } else if key == "chromium"@ {
        Some("chromium"@)
    } else if key == "chromium_chromium"@ {
        Some("chromium"@)
    } else if key == "falkon_falkon"@ {
        Some("falkon"@)
    } else if key == "firefox"@ {
        Some("firefox"@)
    } else if key == "firefox_firefox"@ {
        Some("firefox"@)
    } else if key == "google-chrome"@ {
        Some("chrome"@)
    } else if key == "konqueror_konqueror"@ {
        Some("konqueror"@)
    } else if key == "microsoft-edge"@ {
        Some("msedge"@)
    } else if key == "opera_opera"@ {
        Some("opera"@)
    } else if key == "opera-beta_opera-beta"@ {
        Some("opera-beta"@)
    } else if key == "opera-developer_opera-developer"@ {
        Some("opera-developer"@)
    } else if key == "vivaldi_vivaldi-stable"@ {
        Some("vivaldi"@)
    } else {
        None
    }
}

/// Looks a desktop entry's base name up in the Linux table.
pub fn linux_browser_type(key: &str) -> (r: Option<String>)
    ensures
        r matches Some(t) ==> linux_type_of(key@) == Some(t@),
        r is None ==> linux_type_of(key@) is None,
        r matches Some(t) ==> t@.len() > 0,
{
    if same_text(key, "brave-browser") {
        proof {
            reveal_strlit("brave");
        }
        return Some(String::from_str("brave"));
    }
    if same_text(key, "brave_brave") {
        proof {
            reveal_strlit("brave");
        }
        return Some(String::from_str("brave"));
    }
    if same_text(key, "brave-browser-beta") {
        proof {
            reveal_strlit("brave-beta");
        }
        return Some(String::from_str("brave-beta"));
    }
    if same_text(key, "brave-browser-nightly") {
        proof {
            reveal_strlit("brave-nightly");
        }
        return Some(String::from_str("brave-nightly"));
    }
    if same_text(key, "chromium") {
        proof {
            reveal_strlit("chromium");
        }
        return Some(String::from_str("chromium"));
    }
    if same_text(key, "chromium_chromium") {
        proof {
            reveal_strlit("chromium");
        }
        return Some(String::from_str("chromium"));
    }
    if same_text(key, "falkon_falkon") {
        proof {
            reveal_strlit("falkon");
        }
        return Some(String::from_str("falkon"));
    }
    if same_text(key, "firefox") {
        proof {
            reveal_strlit("firefox");
        }
        return Some(String::from_str("firefox"));
    }
    if same_text(key, "firefox_firefox") {
        proof {
            reveal_strlit("firefox");
        }
        return Some(String::from_str("firefox"));
    }
    if same_text(key, "google-chrome") {
        proof {
            reveal_strlit("chrome");
        }
        return Some(String::from_str("chrome"));
    }
    if same_text(key, "konqueror_konqueror") {
        proof {
            reveal_strlit("konqueror");
        }
        return Some(String::from_str("konqueror"));
    }
    if same_text(key, "microsoft-edge") {
        proof {
            reveal_strlit("msedge");
        }
        return Some(String::from_str("msedge"));
    }
    if same_text(key, "opera_opera") {
        proof {
            reveal_strlit("opera");
        }
        return Some(String::from_str("opera"));
    }
    if same_text(key, "opera-beta_opera-beta") {
        proof {
            reveal_strlit("opera-beta");
        }
        return Some(String::from_str("opera-beta"));
    }
    if same_text(key, "opera-developer_opera-developer") {
        proof {
            reveal_strlit("opera-developer");
        }
        return Some(String::from_str("opera-developer"));
    }
    if same_text(key, "vivaldi_vivaldi-stable") {
        proof {
            reveal_strlit("vivaldi");
        }
        return Some(String::from_str("vivaldi"));
    }
    None
}

/// One macOS application bundle that is looked for: its canonical type,
/// its bundle identifier, and the manifest key that holds its version.
pub struct BundleEntry {
    pub browser_type: &'static str,
    pub bundle_id: &'static str,
    pub version_key: &'static str,
}

/// The macOS bundles, as (type, bundle identifier, version key), in the
/// order in which they are looked for.
pub open spec fn macos_bundle_table() -> Seq<(Seq<char>, Seq<char>, Seq<char>)> {
    seq![
        ("basilisk"@, "org.mozilla.basilisk"@, "CFBundleShortVersionString"@),
        ("brave"@, "com.brave.Browser"@, "CFBundleVersion"@),
        ("brave-beta"@, "com.brave.Browser.beta"@, "CFBundleVersion"@),
        ("brave-dev"@, "com.brave.Browser.dev"@, "CFBundleVersion"@),
        ("brave-nightly"@, "com.brave.Browser.nightly"@, "CFBundleVersion"@),
        ("chrome"@, "com.google.Chrome"@, "CFBundleShortVersionString"@),
        ("chrome-beta"@, "com.google.Chrome.beta"@, "CFBundleShortVersionString"@),
        ("chrome-canary"@, "com.google.Chrome.canary"@, "CFBundleShortVersionString"@),
        ("chrome-dev"@, "com.google.Chrome.dev"@, "CFBundleShortVersionString"@),
        ("chrome-test"@, "com.google.chrome.for.testing"@, "CFBundleShortVersionString"@),
        ("chromium"@, "org.chromium.Chromium"@, "CFBundleShortVersionString"@),
        ("duckduckgo"@, "com.duckduckgo.macos.browser"@, "CFBundleShortVersionString"@),
        ("epic"@, "com.hiddenreflex.Epic"@, "CFBundleShortVersionString"@),
        ("firefox"@, "org.mozilla.firefox"@, "CFBundleShortVersionString"@),
        ("firefox-developer"@, "org.mozilla.firefoxdeveloperedition"@, "CFBundleShortVersionString"@),
        ("firefox-nightly"@, "org.mozilla.nightly"@, "CFBundleShortVersionString"@),
        ("floorp"@, "org.mozilla.floorp"@, "CFBundleShortVersionString"@),
        ("librewolf"@, "org.mozilla.librewolf"@, "CFBundleShortVersionString"@),
        ("midori"@, "org.mozilla.midori"@, "CFBundleShortVersionString"@),
        ("msedge"@, "com.microsoft.edgemac"@, "CFBundleShortVersionString"@),
        ("msedge-beta"@, "com.microsoft.edgemac.Beta"@, "CFBundleShortVersionString"@),
        ("msedge-dev"@, "com.microsoft.edgemac.Dev"@, "CFBundleShortVersionString"@),
        ("msedge-canary"@, "com.microsoft.edgemac.Canary"@, "CFBundleShortVersionString"@),
        ("opera"@, "com.operasoftware.Opera"@, "CFBundleVersion"@),
        ("opera-beta"@, "com.operasoftware.OperaNext"@, "CFBundleVersion"@),
        ("opera-developer"@, "com.operasoftware.OperaDeveloper"@, "CFBundleVersion"@),
        ("opera-gx"@, "com.operasoftware.OperaGX"@, "CFBundleVersion"@),
        ("opera-neon"@, "com.opera.Neon"@, "CFBundleShortVersionString"@),
        ("pale-moon"@, "org.mozilla.pale moon"@, "CFBundleShortVersionString"@),
        ("safari"@, "com.apple.Safari"@, "CFBundleShortVersionString"@),
        ("safari-technology-preview"@, "com.apple.SafariTechnologyPreview"@, "CFBundleShortVersionString"@),
        ("servo"@, "org.servo.Servo"@, "CFBundleShortVersionString"@),
        ("vivaldi"@, "com.vivaldi.Vivaldi"@, "CFBundleShortVersionString"@),
        ("waterfox"@, "net.waterfox.waterfox"@, "CFBundleShortVersionString"@),
        ("yandex"@, "ru.yandex.desktop.yandex-browser"@, "CFBundleShortVersionString"@),
        ("zen"@, "app.zen-browser.zen"@, "CFBundleShortVersionString"@),
    ]
}

/// The view of a bundle entry.
pub open spec fn bundle_view(e: BundleEntry) -> (Seq<char>, Seq<char>, Seq<char>) {
    (e.browser_type@, e.bundle_id@, e.version_key@)
}

/// The macOS bundle table.
pub fn macos_bundles() -> (r: Vec<BundleEntry>)
    ensures
        r@.map_values(|e: BundleEntry| bundle_view(e)) == macos_bundle_table(),
{
    let mut r: Vec<BundleEntry> = Vec::new();
    r.push(BundleEntry { browser_type: "basilisk", bundle_id: "org.mozilla.basilisk", version_key: "CFBundleShortVersionString" });
    r.push(BundleEntry { browser_type: "brave", bundle_id: "com.brave.Browser", version_key: "CFBundleVersion" });
    r.push(BundleEntry { browser_type: "brave-beta", bundle_id: "com.brave.Browser.beta", version_key: "CFBundleVersion" });
    r.push(BundleEntry { browser_type: "brave-dev", bundle_id: "com.brave.Browser.dev", version_key: "CFBundleVersion" });
    r.push(BundleEntry { browser_type: "brave-nightly", bundle_id: "com.brave.Browser.nightly", version_key: "CFBundleVersion" });
    r.push(BundleEntry { browser_type: "chrome", bundle_id: "com.google.Chrome", version_key: "CFBundleShortVersionString" });
    r.push(BundleEntry { browser_type: "chrome-beta", bundle_id: "com.google.Chrome.beta", version_key: "CFBundleShortVersionString" });
    r.push(BundleEntry { browser_type: "chrome-canary", bundle_id: "com.google.Chrome.canary", version_key: "CFBundleShortVersionString" });
    r.push(BundleEntry { browser_type: "chrome-dev", bundle_id: "com.google.Chrome.dev", version_key: "CFBundleShortVersionString" });
    r.push(BundleEntry { browser_type: "chrome-test", bundle_id: "com.google.chrome.for.testing", version_key: "CFBundleShortVersionString" });
    r.push(BundleEntry { browser_type: "chromium", bundle_id: "org.chromium.Chromium", version_key: "CFBundleShortVersionString" });
    r.push(BundleEntry { browser_type: "duckduckgo", bundle_id: "com.duckduckgo.macos.browser", version_key: "CFBundleShortVersionString" });
    r.push(BundleEntry { browser_type: "epic", bundle_id: "com.hiddenreflex.Epic", version_key: "CFBundleShortVersionString" });
    r.push(BundleEntry { browser_type: "firefox", bundle_id: "org.mozilla.firefox", version_key: "CFBundleShortVersionString" });
    r.push(BundleEntry { browser_type: "firefox-developer", bundle_id: "org.mozilla.firefoxdeveloperedition", version_key: "CFBundleShortVersionString" });
    r.push(BundleEntry { browser_type: "firefox-nightly", bundle_id: "org.mozilla.nightly", version_key: "CFBundleShortVersionString" });
    r.push(BundleEntry { browser_type: "floorp", bundle_id: "org.mozilla.floorp", version_key: "CFBundleShortVersionString" });
    r.push(BundleEntry { browser_type: "librewolf", bundle_id: "org.mozilla.librewolf", version_key: "CFBundleShortVersionString" });
    r.push(BundleEntry { browser_type: "midori", bundle_id: "org.mozilla.midori", version_key: "CFBundleShortVersionString" });
    r.push(BundleEntry { browser_type: "msedge", bundle_id: "com.microsoft.edgemac", version_key: "CFBundleShortVersionString" });
    r.push(BundleEntry { browser_type: "msedge-beta", bundle_id: "com.microsoft.edgemac.Beta", version_key: "CFBundleShortVersionString" });
    r.push(BundleEntry { browser_type: "msedge-dev", bundle_id: "com.microsoft.edgemac.Dev", version_key: "CFBundleShortVersionString" });
    r.push(BundleEntry { browser_type: "msedge-canary", bundle_id: "com.microsoft.edgemac.Canary", version_key: "CFBundleShortVersionString" });
    r.push(BundleEntry { browser_type: "opera", bundle_id: "com.operasoftware.Opera", version_key: "CFBundleVersion" });
    r.push(BundleEntry { browser_type: "opera-beta", bundle_id: "com.operasoftware.OperaNext", version_key: "CFBundleVersion" });
    r.push(BundleEntry { browser_type: "opera-developer", bundle_id: "com.operasoftware.OperaDeveloper", version_key: "CFBundleVersion" });
    r.push(BundleEntry { browser_type: "opera-gx", bundle_id: "com.operasoftware.OperaGX", version_key: "CFBundleVersion" });
    r.push(BundleEntry { browser_type: "opera-neon", bundle_id: "com.opera.Neon", version_key: "CFBundleShortVersionString" });
    r.push(BundleEntry { browser_type: "pale-moon", bundle_id: "org.mozilla.pale moon", version_key: "CFBundleShortVersionString" });
    r.push(BundleEntry { browser_type: "safari", bundle_id: "com.apple.Safari", version_key: "CFBundleShortVersionString" });
    r.push(BundleEntry { browser_type: "safari-technology-preview", bundle_id: "com.apple.SafariTechnologyPreview", version_key: "CFBundleShortVersionString" });
    r.push(BundleEntry { browser_type: "servo", bundle_id: "org.servo.Servo", version_key: "CFBundleShortVersionString" });
    r.push(BundleEntry { browser_type: "vivaldi", bundle_id: "com.vivaldi.Vivaldi", version_key: "CFBundleShortVersionString" });
    r.push(BundleEntry { browser_type: "waterfox", bundle_id: "net.waterfox.waterfox", version_key: "CFBundleShortVersionString" });
    r.push(BundleEntry { browser_type: "yandex", bundle_id: "ru.yandex.desktop.yandex-browser", version_key: "CFBundleShortVersionString" });
    r.push(BundleEntry { browser_type: "zen", bundle_id: "app.zen-browser.zen", version_key: "CFBundleShortVersionString" });
    assert(r@.map_values(|e: BundleEntry| bundle_view(e)) =~= macos_bundle_table());
    r
}

} // verus!
