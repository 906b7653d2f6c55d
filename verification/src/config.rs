//! The dock's configuration: its fields, their defaults, and how the values
//! read from `config.toml` are completed with defaults.

use vstd::prelude::*;
use crate::text::{owned, strings_view};

verus! {

/// The configuration of the dock, as stored in `config.toml`.
#[derive(Clone, Debug)]
pub struct Config {
    pub auto_hide: bool,
    pub pinned_apps: Vec<String>,
    pub icon_size: i32,
    pub exclusive_zone: i32,
    pub trigger_height: i32,
    pub trigger_width: i32,
    pub background_color: String,
    pub overlay: bool,
    pub transparent: bool,
}

/// The values of a [`Config`], with each string taken by its characters.
pub struct ConfigModel {
    pub auto_hide: bool,
    pub pinned_apps: Seq<Seq<char>>,
    pub icon_size: i32,
    pub exclusive_zone: i32,
    pub trigger_height: i32,
    pub trigger_width: i32,
    pub background_color: Seq<char>,
    pub overlay: bool,
    pub transparent: bool,
}

impl View for Config {
    type V = ConfigModel;

    open spec fn view(&self) -> ConfigModel {
        ConfigModel {
            auto_hide: self.auto_hide,
            pinned_apps: strings_view(self.pinned_apps@),
            icon_size: self.icon_size,
            exclusive_zone: self.exclusive_zone,
            trigger_height: self.trigger_height,
            trigger_width: self.trigger_width,
            background_color: self.background_color@,
            overlay: self.overlay,
            transparent: self.transparent,
        }
    }
}

/// The fields found in a configuration file; a missing field is `None`.
#[derive(Clone, Debug)]
pub struct PartialConfig {
    pub auto_hide: Option<bool>,
    pub pinned_apps: Option<Vec<String>>,
    pub icon_size: Option<i32>,
    pub exclusive_zone: Option<i32>,
    pub trigger_height: Option<i32>,
    pub trigger_width: Option<i32>,
    pub background_color: Option<String>,
    pub overlay: Option<bool>,
    pub transparent: Option<bool>,
}

/// The favorites of a fresh installation.
pub open spec fn default_pinned_model() -> Seq<Seq<char>> {
    seq!["firefox"@, "alacritty"@, "thunar"@]
}

/// The configuration used when no file gives a value.
pub open spec fn default_model() -> ConfigModel {
    ConfigModel {
        auto_hide: true,
        pinned_apps: default_pinned_model(),
        icon_size: 32,
        exclusive_zone: 60,
        trigger_height: 10,
        trigger_width: 100,
        background_color: "rgba(20, 20, 30, 0.15)"@,
        overlay: true,
        transparent: false,
    }
}

/// Each field of `p` that is present, each missing one from the defaults.
pub open spec fn completed_model(p: PartialConfig) -> ConfigModel {
    let d = default_model();
    ConfigModel {
        auto_hide: match p.auto_hide { Some(v) => v, None => d.auto_hide },
        pinned_apps: match p.pinned_apps {
            Some(v) => strings_view(v@),
            None => d.pinned_apps,
        },
        icon_size: match p.icon_size { Some(v) => v, None => d.icon_size },
        exclusive_zone: match p.exclusive_zone { Some(v) => v, None => d.exclusive_zone },
        trigger_height: match p.trigger_height { Some(v) => v, None => d.trigger_height },
        trigger_width: match p.trigger_width { Some(v) => v, None => d.trigger_width },
        background_color: match p.background_color {
            Some(v) => v@,
            None => d.background_color,
        },
        overlay: match p.overlay { Some(v) => v, None => d.overlay },
        transparent: match p.transparent { Some(v) => v, None => d.transparent },
    }
}

/// The dock hides itself by default.
pub fn default_auto_hide() -> (r: bool)
    ensures
        r == default_model().auto_hide,
{
    true
}

/// Firefox, Alacritty and Thunar are the default favorites.
pub fn default_pinned_apps() -> (r: Vec<String>)
    ensures
        strings_view(r@) == default_pinned_model(),
{
    let mut v: Vec<String> = Vec::new();
    v.push(owned("firefox"));
    v.push(owned("alacritty"));
    v.push(owned("thunar"));
    assert(strings_view(v@) =~= default_pinned_model());
    v
}

/// Icons are 32 pixels by default.
pub fn default_icon_size() -> (r: i32)
    ensures
        r == default_model().icon_size,
{
    32
}

/// A shown dock reserves 60 pixels at the screen's edge by default.
pub fn default_exclusive_zone() -> (r: i32)
    ensures
        r == default_model().exclusive_zone,
{
    60
}

/// The trigger strip is 10 pixels high by default.
pub fn default_trigger_height() -> (r: i32)
    ensures
        r == default_model().trigger_height,
{
    10
}

/// The trigger strip is 100 pixels wide by default.
pub fn default_trigger_width() -> (r: i32)
    ensures
        r == default_model().trigger_width,
{
    100
}

/// The default background: a faint translucent dark blue.
pub fn default_background_color() -> (r: String)
    ensures
        r@ == default_model().background_color,
{
    owned("rgba(20, 20, 30, 0.15)")
}

/// The dock floats over windows by default.
pub fn default_overlay() -> (r: bool)
    ensures
        r == default_model().overlay,
{
    true
}

/// The background is painted by default.
pub fn default_transparent() -> (r: bool)
    ensures
        r == default_model().transparent,
{
    false
}

impl Default for Config {
    fn default() -> (r: Self)
        ensures
            r@ == default_model(),
    {
        Config {
            auto_hide: default_auto_hide(),
            pinned_apps: default_pinned_apps(),
            icon_size: default_icon_size(),
            exclusive_zone: default_exclusive_zone(),
            trigger_height: default_trigger_height(),
            trigger_width: default_trigger_width(),
            background_color: default_background_color(),
            overlay: default_overlay(),
            transparent: default_transparent(),
        }
    }
}

impl Config {
    /// Completes the fields read from a configuration file with the
    /// defaults of the missing ones.
    pub fn from_partial(p: PartialConfig) -> (r: Config)
        ensures
            r@ == completed_model(p),
            p.auto_hide matches Some(v) ==> r@.auto_hide == v,
            p.pinned_apps matches Some(v) ==> r@.pinned_apps == strings_view(v@),
            p.icon_size matches Some(v) ==> r@.icon_size == v,
            p.exclusive_zone matches Some(v) ==> r@.exclusive_zone == v,
            p.trigger_height matches Some(v) ==> r@.trigger_height == v,
            p.trigger_width matches Some(v) ==> r@.trigger_width == v,
            p.background_color matches Some(v) ==> r@.background_color == v@,
            p.overlay matches Some(v) ==> r@.overlay == v,
            p.transparent matches Some(v) ==> r@.transparent == v,
            p.auto_hide is None ==> r@.auto_hide == true,
            p.pinned_apps is None ==> r@.pinned_apps == seq!["firefox"@, "alacritty"@, "thunar"@],
            p.icon_size is None ==> r@.icon_size == 32,
            p.exclusive_zone is None ==> r@.exclusive_zone == 60,
            p.trigger_height is None ==> r@.trigger_height == 10,
            p.trigger_width is None ==> r@.trigger_width == 100,
            p.background_color is None ==> r@.background_color == "rgba(20, 20, 30, 0.15)"@,
            p.overlay is None ==> r@.overlay == true,
            p.transparent is None ==> r@.transparent == false,
    {
        proof {
            law_file_values_win(p);
        }
        let auto_hide = match p.auto_hide { Some(v) => v, None => default_auto_hide() };
        let pinned_apps = match p.pinned_apps { Some(v) => v, None => default_pinned_apps() };
        let icon_size = match p.icon_size { Some(v) => v, None => default_icon_size() };
        let exclusive_zone = match p.exclusive_zone {
            Some(v) => v,
            None => default_exclusive_zone(),
        };
        let trigger_height = match p.trigger_height {
            Some(v) => v,
            None => default_trigger_height(),
        };
        let trigger_width = match p.trigger_width {
            Some(v) => v,
            None => default_trigger_width(),
        };
        let background_color = match p.background_color {
            Some(v) => v,
            None => default_background_color(),
        };
        let overlay = match p.overlay { Some(v) => v, None => default_overlay() };
        let transparent = match p.transparent { Some(v) => v, None => default_transparent() };
        Config {
            auto_hide,
            pinned_apps,
            icon_size,
            exclusive_zone,
            trigger_height,
            trigger_width,
            background_color,
            overlay,
            transparent,
        }
    }

    /// The configuration in effect after reading the configuration file:
    /// the file's values completed with defaults when it was read and
    /// parsed, the defaults alone otherwise.
    pub fn loaded(parsed: Option<PartialConfig>) -> (r: Config)
        ensures
            r@ == match parsed {
                Some(p) => completed_model(p),
                None => default_model(),
            },
    {
        match parsed {
            Some(p) => Config::from_partial(p),
            None => Config::default(),
        }
    }

    /// The background color painted behind the dock's content:
    /// `transparent` when the dock is set transparent, else the configured
    /// color.
    pub fn background(&self) -> (r: String)
        ensures
            r@ == (if self.transparent { "transparent"@ } else { self.background_color@ }),
    {
        if self.transparent {
            owned("transparent")
        } else {
            owned(self.background_color.as_str())
        }
    }
}

/// A field present in the file is taken as it is; a missing one gets its
/// documented default.
pub proof fn law_file_values_win(p: PartialConfig)
    ensures
        p.auto_hide matches Some(v) ==> completed_model(p).auto_hide == v,
        p.pinned_apps matches Some(v) ==> completed_model(p).pinned_apps == strings_view(v@),
        p.icon_size matches Some(v) ==> completed_model(p).icon_size == v,
        p.exclusive_zone matches Some(v) ==> completed_model(p).exclusive_zone == v,
        p.trigger_height matches Some(v) ==> completed_model(p).trigger_height == v,
        p.trigger_width matches Some(v) ==> completed_model(p).trigger_width == v,
        p.background_color matches Some(v) ==> completed_model(p).background_color == v@,
        p.overlay matches Some(v) ==> completed_model(p).overlay == v,
        p.transparent matches Some(v) ==> completed_model(p).transparent == v,
        p.auto_hide is None ==> completed_model(p).auto_hide == true,
        p.pinned_apps is None ==> completed_model(p).pinned_apps == seq!["firefox"@, "alacritty"@, "thunar"@],
        p.icon_size is None ==> completed_model(p).icon_size == 32,
        p.exclusive_zone is None ==> completed_model(p).exclusive_zone == 60,
        p.trigger_height is None ==> completed_model(p).trigger_height == 10,
        p.trigger_width is None ==> completed_model(p).trigger_width == 100,
        p.background_color is None ==> completed_model(p).background_color == "rgba(20, 20, 30, 0.15)"@,
        p.overlay is None ==> completed_model(p).overlay == true,
        p.transparent is None ==> completed_model(p).transparent == false,
{
}

} // verus!
