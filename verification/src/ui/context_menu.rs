//! Favorites management from the right-click menu: pinning and unpinning
//! applications by class, letter case aside.

use vstd::prelude::*;
use crate::config::{Config, ConfigModel};
use crate::text::{lowercase, owned, str_eq, strings_view, to_lower};
use crate::ui::taskbar::pin_keys;

verus! {

/// Two classes name the same application, letter case aside.
pub open spec fn same_class(a: Seq<char>, b: Seq<char>) -> bool {
    lowercase(a) == lowercase(b)
}

/// Some favorite names the class.
pub open spec fn is_pinned(pins: Seq<Seq<char>>, class: Seq<char>) -> bool {
    exists|i: int| 0 <= i < pins.len() && same_class(#[trigger] pins[i], class)
}

/// The favorites after pinning a class: unchanged if it is already pinned,
/// else with the class appended.
pub open spec fn pinned(pins: Seq<Seq<char>>, class: Seq<char>) -> Seq<Seq<char>> {
    if is_pinned(pins, class) {
        pins
    } else {
        pins.push(class)
    }
}

/// The favorites after unpinning a class: every favorite naming it is
/// dropped, the others keep their order.
pub open spec fn unpinned(pins: Seq<Seq<char>>, class: Seq<char>) -> Seq<Seq<char>>
    decreases pins.len(),
{
    if pins.len() == 0 {
        pins
    } else {
        let rest = unpinned(pins.drop_last(), class);
        if same_class(pins.last(), class) {
            rest
        } else {
            rest.push(pins.last())
        }
    }
}

/// `m` with its favorites replaced.
pub open spec fn with_pins(m: ConfigModel, pins: Seq<Seq<char>>) -> ConfigModel {
    ConfigModel { pinned_apps: pins, ..m }
}

/// Whether a favorite names the class.
pub fn is_class_pinned(pins: &Vec<String>, class: &str) -> (r: bool)
    ensures
        r == is_pinned(strings_view(pins@), class@),
{
    let class_lower = to_lower(class);
    let mut i: usize = 0;
    while i < pins.len()
        invariant
            i <= pins.len(),
            class_lower@ == lowercase(class@),
            forall|j: int| 0 <= j < i ==> !same_class(#[trigger] strings_view(pins@)[j], class@),
        decreases pins.len() - i,
    {
        let p = to_lower(pins[i].as_str());
        if str_eq(p.as_str(), class_lower.as_str()) {
            assert(same_class(strings_view(pins@)[i as int], class@));
            return true;
        }
        i += 1;
    }
    false
}

/// Adds a class to the favorites unless one of them already names it.
/// Returns whether the favorites changed (then they are to be saved and the
/// dock redrawn).
pub fn pin_app(config: &mut Config, class: &str) -> (changed: bool)
    ensures
        changed == !is_pinned(old(config)@.pinned_apps, class@),
        final(config)@ == with_pins(old(config)@, pinned(old(config)@.pinned_apps, class@)),
{
    if is_class_pinned(&config.pinned_apps, class) {
        assert(config@ =~= with_pins(config@, config@.pinned_apps));
        false
    } else {
        let ghost before = config@;
        config.pinned_apps.push(owned(class));
        assert(config@.pinned_apps =~= before.pinned_apps.push(class@));
        true
    }
}

/// Drops every favorite that names the class. Returns whether the favorites
/// changed (then they are to be saved and the dock redrawn).
pub fn unpin_app(config: &mut Config, class: &str) -> (changed: bool)
    ensures
        changed == is_pinned(old(config)@.pinned_apps, class@),
        final(config)@ == with_pins(old(config)@, unpinned(old(config)@.pinned_apps, class@)),
{
    let ghost before = config@;
    let class_lower = to_lower(class);
    let original_len: usize = config.pinned_apps.len();
    let mut kept: Vec<String> = Vec::new();
    let mut i: usize = 0;
    while i < config.pinned_apps.len()
        invariant
            i <= config.pinned_apps.len(),
            config@ == before,
            class_lower@ == lowercase(class@),
            strings_view(kept@) == unpinned(before.pinned_apps.take(i as int), class@),
        decreases config.pinned_apps.len() - i,
    {
        assert(before.pinned_apps.take(i + 1).drop_last() =~= before.pinned_apps.take(i as int));
        let p = to_lower(config.pinned_apps[i].as_str());
        if !str_eq(p.as_str(), class_lower.as_str()) {
            kept.push(owned(config.pinned_apps[i].as_str()));
        }
        assert(strings_view(kept@) =~= unpinned(before.pinned_apps.take(i + 1), class@));
        i += 1;
    }
    assert(before.pinned_apps.take(original_len as int) =~= before.pinned_apps);
    proof {
        lemma_unpinned_len(before.pinned_apps, class@);
    }
    let changed = kept.len() < original_len;
    config.pinned_apps = kept;
    assert(config@ =~= with_pins(before, unpinned(before.pinned_apps, class@)));
    changed
}

/// Unpinning shortens the favorites exactly when the class is pinned.
proof fn lemma_unpinned_len(pins: Seq<Seq<char>>, class: Seq<char>)
    ensures
        unpinned(pins, class).len() <= pins.len(),
        (unpinned(pins, class).len() < pins.len()) == is_pinned(pins, class),
    decreases pins.len(),
{
    if pins.len() > 0 {
        let init = pins.drop_last();
        lemma_unpinned_len(init, class);
        if is_pinned(init, class) {
            let i = choose|i: int| 0 <= i < init.len() && same_class(#[trigger] init[i], class);
            assert(pins[i] == init[i]);
        }
        if is_pinned(pins, class) && !same_class(pins.last(), class) {
            let i = choose|i: int| 0 <= i < pins.len() && same_class(#[trigger] pins[i], class);
            assert(init[i] == pins[i]);
        }
        if same_class(pins.last(), class) {
            assert(same_class(pins[pins.len() - 1], class));
        }
    }
}

/// When no favorite names the class, unpinning it changes nothing.
proof fn lemma_unpin_absent(pins: Seq<Seq<char>>, class: Seq<char>)
    requires
        !is_pinned(pins, class),
    ensures
        unpinned(pins, class) == pins,
    decreases pins.len(),
{
    if pins.len() > 0 {
        let init = pins.drop_last();
        assert forall|i: int| 0 <= i < init.len() implies !same_class(#[trigger] init[i], class) by {
            assert(init[i] == pins[i]);
        }
        lemma_unpin_absent(init, class);
        assert(!same_class(pins[pins.len() - 1], class));
        assert(init.push(pins.last()) =~= pins);
    }
}

/// Membership in a sequence with one more element at its end.
proof fn lemma_push_contains(s: Seq<Seq<char>>, a: Seq<char>, x: Seq<char>)
    ensures
        s.push(a).contains(x) <==> (s.contains(x) || a == x),
{
    let p = s.push(a);
    if s.contains(x) {
        let i = choose|i: int| 0 <= i < s.len() && s[i] == x;
        assert(p[i] == x);
    }
    if a == x {
        assert(p[s.len() as int] == x);
    }
    if p.contains(x) {
        let i = choose|i: int| 0 <= i < p.len() && p[i] == x;
        if i < s.len() {
            assert(s[i] == x);
        }
    }
}

/// Every favorite left after unpinning was a favorite before and does not
/// name the class; every favorite before that does not name the class is
/// left.
proof fn lemma_unpinned_members(pins: Seq<Seq<char>>, class: Seq<char>, x: Seq<char>)
    ensures
        unpinned(pins, class).contains(x) <==> (pins.contains(x) && !same_class(x, class)),
    decreases pins.len(),
{
    if pins.len() > 0 {
        let init = pins.drop_last();
        let rest = unpinned(init, class);
        lemma_unpinned_members(init, class, x);
        assert(init.push(pins.last()) =~= pins);
        lemma_push_contains(init, pins.last(), x);
        lemma_push_contains(rest, pins.last(), x);
    }
}

/// After a class is pinned, a favorite names it.
pub proof fn law_pin_makes_pinned(pins: Seq<Seq<char>>, class: Seq<char>)
    ensures
        is_pinned(pinned(pins, class), class),
{
    if !is_pinned(pins, class) {
        let p = pins.push(class);
        assert(same_class(p[pins.len() as int], class));
    }
}

/// Pinning a class twice leaves the favorites as pinning it once.
pub proof fn law_pin_idempotent(pins: Seq<Seq<char>>, class: Seq<char>)
    ensures
        pinned(pinned(pins, class), class) == pinned(pins, class),
{
    law_pin_makes_pinned(pins, class);
}

/// Pinning keeps every favorite in place and at most appends the class.
pub proof fn law_pin_keeps_favorites(pins: Seq<Seq<char>>, class: Seq<char>)
    ensures
        pinned(pins, class).take(pins.len() as int) == pins,
        pinned(pins, class).len() <= pins.len() + 1,
{
    assert(pinned(pins, class).take(pins.len() as int) =~= pins);
}

/// After a class is unpinned, no favorite names it.
pub proof fn law_unpin_removes(pins: Seq<Seq<char>>, class: Seq<char>)
    ensures
        !is_pinned(unpinned(pins, class), class),
{
    let u = unpinned(pins, class);
    if is_pinned(u, class) {
        let i = choose|i: int| 0 <= i < u.len() && same_class(#[trigger] u[i], class);
        lemma_unpinned_members(pins, class, u[i]);
        assert(u.contains(u[i]));
    }
}

/// Unpinning leaves the favorites that name other classes, and only them.
pub proof fn law_unpin_keeps_others(pins: Seq<Seq<char>>, class: Seq<char>, other: Seq<char>)
    requires
        !same_class(other, class),
    ensures
        unpinned(pins, class).contains(other) == pins.contains(other),
{
    lemma_unpinned_members(pins, class, other);
}

/// Unpinning a class twice leaves the favorites as unpinning it once.
pub proof fn law_unpin_idempotent(pins: Seq<Seq<char>>, class: Seq<char>)
    ensures
        unpinned(unpinned(pins, class), class) == unpinned(pins, class),
{
    law_unpin_removes(pins, class);
    lemma_unpin_absent(unpinned(pins, class), class);
}

/// Unpinning a class that was just pinned, when it had not been pinned
/// before, gives back the favorites as they were.
pub proof fn law_unpin_undoes_pin(pins: Seq<Seq<char>>, class: Seq<char>)
    requires
        !is_pinned(pins, class),
    ensures
        unpinned(pinned(pins, class), class) == pins,
{
    let p = pins.push(class);
    assert(p.drop_last() =~= pins);
    assert(same_class(p.last(), class));
    lemma_unpin_absent(pins, class);
}

/// The entries of the right-click menu of a dock icon.
#[derive(Clone, Copy, Debug, PartialEq, Eq, Structural)]
pub enum MenuEntry {
    AddToFavorites,
    RemoveFromFavorites,
    CloseApplication,
}

impl MenuEntry {
    /// The text shown for the entry.
    pub fn label(&self) -> (r: &'static str)
        ensures
            r@ == match self {
                MenuEntry::AddToFavorites => "Add to Favorites"@,
                MenuEntry::RemoveFromFavorites => "Remove from Favorites"@,
                MenuEntry::CloseApplication => "Close Application"@,
            },
    {
        match self {
            MenuEntry::AddToFavorites => "Add to Favorites",
            MenuEntry::RemoveFromFavorites => "Remove from Favorites",
            MenuEntry::CloseApplication => "Close Application",
        }
    }
}

/// The menu of an icon: the favorites toggle first (removing when the icon
/// is a favorite, adding otherwise), then closing the application when it
/// has open windows.
pub fn context_menu_entries(is_pinned: bool, has_open_windows: bool) -> (r: Vec<MenuEntry>)
    ensures
        r@ == (if is_pinned {
            seq![MenuEntry::RemoveFromFavorites]
        } else {
            seq![MenuEntry::AddToFavorites]
        }) + (if has_open_windows {
            seq![MenuEntry::CloseApplication]
        } else {
            Seq::empty()
        }),
{
    let mut r: Vec<MenuEntry> = Vec::new();
    if is_pinned {
        r.push(MenuEntry::RemoveFromFavorites);
    } else {
        r.push(MenuEntry::AddToFavorites);
    }
    if has_open_windows {
        r.push(MenuEntry::CloseApplication);
    }
    assert(r@ =~= (if is_pinned {
        seq![MenuEntry::RemoveFromFavorites]
    } else {
        seq![MenuEntry::AddToFavorites]
    }) + (if has_open_windows {
        seq![MenuEntry::CloseApplication]
    } else {
        Seq::empty()
    }));
    r
}

/// Once a class is pinned, the rebuilt favorites row has a button under
/// its key, so its windows light that button.
pub proof fn law_pinned_class_has_button(pins: Seq<Seq<char>>, class: Seq<char>)
    ensures
        pin_keys(pinned(pins, class)).contains(lowercase(class)),
{
    law_pin_makes_pinned(pins, class);
    let p = pinned(pins, class);
    let i = choose|i: int| 0 <= i < p.len() && same_class(#[trigger] p[i], class);
    assert(pin_keys(p)[i] == lowercase(class));
}

/// Once a class is unpinned, the rebuilt favorites row has no button under
/// its key, so its windows are shown as tasks.
pub proof fn law_unpinned_class_has_no_button(pins: Seq<Seq<char>>, class: Seq<char>)
    ensures
        !pin_keys(unpinned(pins, class)).contains(lowercase(class)),
{
    law_unpin_removes(pins, class);
    let u = unpinned(pins, class);
    if pin_keys(u).contains(lowercase(class)) {
        let i = choose|i: int| 0 <= i < pin_keys(u).len() && pin_keys(u)[i] == lowercase(class);
        assert(same_class(u[i], class));
    }
}

} // verus!
