use hyprdock::config::Config;
use hyprdock::ui::context_menu::{
    context_menu_entries, is_class_pinned, pin_app, unpin_app, MenuEntry,
};

fn config_with(pins: &[&str]) -> Config {
    let mut c = Config::default();
    c.pinned_apps = pins.iter().map(|s| s.to_string()).collect();
    c
}

#[test]
fn pinning_a_new_class_appends_it() {
    let mut c = config_with(&["firefox", "alacritty"]);
    assert!(pin_app(&mut c, "Thunar"));
    assert_eq!(c.pinned_apps, vec!["firefox", "alacritty", "Thunar"]);
    assert!(is_class_pinned(&c.pinned_apps, "thunar"));
}

#[test]
fn pinning_twice_changes_nothing_the_second_time() {
    let mut c = config_with(&["firefox"]);
    assert!(pin_app(&mut c, "kitty"));
    let after_once = c.pinned_apps.clone();
    assert!(!pin_app(&mut c, "KITTY"));
    assert_eq!(c.pinned_apps, after_once);
}

#[test]
fn unpinning_removes_every_case_variant() {
    let mut c = config_with(&["Firefox", "kitty", "firefox", "code"]);
    assert!(unpin_app(&mut c, "FIREFOX"));
    assert_eq!(c.pinned_apps, vec!["kitty", "code"]);
    assert!(!is_class_pinned(&c.pinned_apps, "firefox"));
    assert!(!unpin_app(&mut c, "firefox"));
    assert_eq!(c.pinned_apps, vec!["kitty", "code"]);
}

#[test]
fn unpin_undoes_pin() {
    let mut c = config_with(&["firefox", "alacritty", "thunar"]);
    let before = c.pinned_apps.clone();
    assert!(pin_app(&mut c, "spotify"));
    assert!(unpin_app(&mut c, "Spotify"));
    assert_eq!(c.pinned_apps, before);
}

#[test]
fn pinning_keeps_other_settings() {
    let mut c = config_with(&[]);
    c.icon_size = 48;
    assert!(pin_app(&mut c, "code"));
    assert_eq!(c.icon_size, 48);
    assert_eq!(c.exclusive_zone, 60);
}

#[test]
fn menu_offers_toggle_then_close() {
    assert_eq!(context_menu_entries(true, true), vec![MenuEntry::RemoveFromFavorites, MenuEntry::CloseApplication]);
    assert_eq!(context_menu_entries(false, false), vec![MenuEntry::AddToFavorites]);
    assert_eq!(context_menu_entries(false, true), vec![MenuEntry::AddToFavorites, MenuEntry::CloseApplication]);
    assert_eq!(MenuEntry::AddToFavorites.label(), "Add to Favorites");
    assert_eq!(MenuEntry::RemoveFromFavorites.label(), "Remove from Favorites");
    assert_eq!(MenuEntry::CloseApplication.label(), "Close Application");
}

#[test]
fn pinned_class_gets_a_button_key() {
    let mut c = config_with(&["firefox"]);
    assert!(pin_app(&mut c, "Kitty"));
    let keys = hyprdock::ui::taskbar::populate_pinned_apps(&c);
    assert!(keys.contains(&"kitty".to_string()));
    assert!(unpin_app(&mut c, "kitty"));
    let keys = hyprdock::ui::taskbar::populate_pinned_apps(&c);
    assert!(!keys.contains(&"kitty".to_string()));
}
