use hyprdock::launcher::{get_all_apps, launch_app, launch_app_by_class, DesktopEntry};
use hyprdock::ui::launcher::{filter_apps, fuzzy_match};
use hyprdock::ui::utils::{background_css, icon_entry_for_class, icon_theme_candidates};

fn entry(display: Option<&str>, id: Option<&str>, exe: Option<&str>, show: Option<bool>, icon: bool) -> DesktopEntry {
    DesktopEntry {
        should_show: show,
        display_name: display.map(|s| s.to_string()),
        name: display.map(|s| s.to_string()),
        id: id.map(|s| s.to_string()),
        executable: exe.map(|s| s.to_string()),
        has_icon: icon,
    }
}

fn sample() -> Vec<DesktopEntry> {
    vec![
        entry(Some("Firefox"), Some("org.mozilla.firefox.desktop"), Some("firefox"), Some(true), true),
        entry(Some("Hidden"), Some("hidden.desktop"), Some("hidden"), Some(false), true),
        entry(None, None, None, None, false),
        entry(Some("Visual Studio Code"), Some("code.desktop"), Some("/usr/bin/code"), Some(true), true),
        entry(None, Some("broken.desktop"), None, Some(true), false),
    ]
}

#[test]
fn listed_apps_with_fallbacks() {
    let apps = get_all_apps(&sample());
    assert_eq!(apps.len(), 3);
    assert_eq!(apps[0].name, "Firefox");
    assert_eq!(apps[0].executable, "firefox");
    assert_eq!(apps[0].entry, 0);
    assert_eq!(apps[1].name, "Visual Studio Code");
    assert_eq!(apps[1].entry, 3);
    assert_eq!(apps[2].name, "Unknown");
    assert_eq!(apps[2].executable, "unknown");
    assert_eq!(apps[2].entry, 4);
}

#[test]
fn launch_by_display_name() {
    let es = sample();
    assert_eq!(launch_app(&es, "Visual Studio Code"), Some(3));
    assert_eq!(launch_app(&es, "firefox"), None);
    assert_eq!(launch_app(&es, ""), Some(2));
}

#[test]
fn launch_by_class_through_id_or_executable() {
    let es = sample();
    assert_eq!(launch_app_by_class(&es, "Firefox"), Some(0));
    assert_eq!(launch_app_by_class(&es, "code"), Some(3));
    assert_eq!(launch_app_by_class(&es, "broken"), Some(4));
    assert_eq!(launch_app_by_class(&es, "zzz"), None);
}

#[test]
fn search_ignores_letter_case() {
    let apps = get_all_apps(&sample());
    let found = filter_apps(&apps, "CODE");
    assert_eq!(found.len(), 1);
    assert_eq!(found[0].name, "Visual Studio Code");
    assert_eq!(filter_apps(&apps, "").len(), 3);
    assert!(filter_apps(&apps, "xyz").is_empty());
}

#[test]
fn search_is_fuzzy() {
    let apps = get_all_apps(&sample());
    let found = filter_apps(&apps, "frfx");
    assert_eq!(found.len(), 1);
    assert_eq!(found[0].name, "Firefox");
    let found = filter_apps(&apps, "VSC");
    assert_eq!(found.len(), 1);
    assert_eq!(found[0].name, "Visual Studio Code");
    assert!(filter_apps(&apps, "xfr").is_empty());
    assert!(fuzzy_match("", "abc"));
    assert!(fuzzy_match("ac", "abc"));
    assert!(!fuzzy_match("ca", "abc"));
    assert!(!fuzzy_match("abcd", "abc"));
}

#[test]
fn icon_theme_names() {
    assert!(icon_theme_candidates("").is_empty());
    assert_eq!(icon_theme_candidates("Code-URL-Handler"), vec!["code-url-handler", "code"]);
    assert_eq!(icon_theme_candidates("org.gnome.Nautilus"), vec!["org.gnome.nautilus", "nautilus"]);
    assert_eq!(icon_theme_candidates("com.visualstudio.code.desktop"), vec!["com.visualstudio.code.desktop", "code"]);
}

#[test]
fn icon_entry_passes() {
    let es = sample();
    assert_eq!(icon_entry_for_class(&es, ""), None);
    // exact name match, letter case aside
    assert_eq!(icon_entry_for_class(&es, "FIREFOX"), Some(0));
    assert_eq!(icon_entry_for_class(&es, "Firefox"), icon_entry_for_class(&es, "firefox"));
    // exact id with .desktop
    assert_eq!(icon_entry_for_class(&es, "code"), Some(3));
    // loose match on id
    assert_eq!(icon_entry_for_class(&es, "mozilla"), Some(0));
    // executable match only
    let es2 = vec![entry(Some("X"), None, Some("/opt/tool"), Some(true), true)];
    assert_eq!(icon_entry_for_class(&es2, "tool"), Some(0));
    // entries without icons are skipped
    let es3 = vec![entry(Some("tool"), None, None, Some(true), false)];
    assert_eq!(icon_entry_for_class(&es3, "tool"), None);
}

#[test]
fn background_style_sheet() {
    assert_eq!(background_css("red"), ".dock-content { background-color: red; }");
}
