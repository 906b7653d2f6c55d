//! The favorites row: which key each favorite is found under.

use vstd::prelude::*;
use crate::config::Config;
use crate::text::{lowercase, strings_view, to_lower};

verus! {

/// The keys under which the favorites are looked up: each favorite in
/// lower case, in the order of the configuration.
pub open spec fn pin_keys(pins: Seq<Seq<char>>) -> Seq<Seq<char>> {
    pins.map_values(|p: Seq<char>| lowercase(p))
}

/// The lookup key of each favorite button, one per configured favorite and
/// in the same order.
pub fn populate_pinned_apps(config: &Config) -> (r: Vec<String>)
    ensures
        strings_view(r@) == pin_keys(config@.pinned_apps),
{
    let mut r: Vec<String> = Vec::new();
    let mut i: usize = 0;
    while i < config.pinned_apps.len()
        invariant
            i <= config.pinned_apps.len(),
            r@.len() == i,
            strings_view(r@) == pin_keys(config@.pinned_apps).take(i as int),
        decreases config.pinned_apps.len() - i,
    {
        let k = to_lower(config.pinned_apps[i].as_str());
        assert(k@ == pin_keys(config@.pinned_apps)[i as int]);
        r.push(k);
        assert(strings_view(r@) =~= pin_keys(config@.pinned_apps).take(i + 1));
        i += 1;
    }
    assert(pin_keys(config@.pinned_apps).take(i as int) =~= pin_keys(config@.pinned_apps));
    r
}

} // verus!
