use hyprdock::config::{
    default_auto_hide, default_background_color, default_exclusive_zone, default_icon_size,
    default_overlay, default_pinned_apps, default_transparent, default_trigger_height,
    default_trigger_width, Config, PartialConfig,
};

fn empty_partial() -> PartialConfig {
    PartialConfig {
        auto_hide: None,
        pinned_apps: None,
        icon_size: None,
        exclusive_zone: None,
        trigger_height: None,
        trigger_width: None,
        background_color: None,
        overlay: None,
        transparent: None,
    }
}

#[test]
fn defaults_match_documentation() {
    assert!(default_auto_hide());
    assert_eq!(default_pinned_apps(), vec!["firefox", "alacritty", "thunar"]);
    assert_eq!(default_icon_size(), 32);
    assert_eq!(default_exclusive_zone(), 60);
    assert_eq!(default_trigger_height(), 10);
    assert_eq!(default_trigger_width(), 100);
    assert_eq!(default_background_color(), "rgba(20, 20, 30, 0.15)");
    assert!(default_overlay());
    assert!(!default_transparent());
}

#[test]
fn default_config_uses_each_default() {
    let c = Config::default();
    assert!(c.auto_hide);
    assert_eq!(c.pinned_apps, vec!["firefox", "alacritty", "thunar"]);
    assert_eq!(c.icon_size, 32);
    assert_eq!(c.exclusive_zone, 60);
    assert_eq!(c.trigger_height, 10);
    assert_eq!(c.trigger_width, 100);
    assert_eq!(c.background_color, "rgba(20, 20, 30, 0.15)");
    assert!(c.overlay);
    assert!(!c.transparent);
}

#[test]
fn missing_fields_take_defaults() {
    let mut p = empty_partial();
    p.auto_hide = Some(true);
    p.pinned_apps = Some(vec!["firefox".to_string(), "kitty".to_string(), "code".to_string(), "spotify".to_string()]);
    p.icon_size = Some(48);
    p.exclusive_zone = Some(70);
    p.trigger_height = Some(8);
    p.transparent = Some(true);
    let c = Config::from_partial(p);
    assert!(c.auto_hide);
    assert_eq!(c.pinned_apps, vec!["firefox", "kitty", "code", "spotify"]);
    assert_eq!(c.icon_size, 48);
    assert_eq!(c.exclusive_zone, 70);
    assert_eq!(c.trigger_height, 8);
    assert_eq!(c.trigger_width, 100);
    assert_eq!(c.background_color, "rgba(20, 20, 30, 0.15)");
    assert!(c.overlay);
    assert!(c.transparent);
}

#[test]
fn empty_file_gives_defaults() {
    let c = Config::from_partial(empty_partial());
    assert_eq!(c.icon_size, 32);
    assert_eq!(c.pinned_apps.len(), 3);
}

#[test]
fn unreadable_file_gives_defaults() {
    let c = Config::loaded(None);
    assert!(c.auto_hide);
    assert_eq!(c.exclusive_zone, 60);
    let mut p = empty_partial();
    p.overlay = Some(false);
    let c = Config::loaded(Some(p));
    assert!(!c.overlay);
    assert_eq!(c.trigger_height, 10);
}

#[test]
fn background_follows_transparency() {
    let mut c = Config::default();
    assert_eq!(c.background(), "rgba(20, 20, 30, 0.15)");
    c.transparent = true;
    assert_eq!(c.background(), "transparent");
}
