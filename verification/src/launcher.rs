//! Installed applications: which to list in the launcher and which to start
//! for a name or a window class.

use vstd::prelude::*;
use crate::text::{contains, has_substring, lowercase, owned, str_eq, to_lower};

verus! {

/// What the dock reads of one installed application's desktop entry. A
/// field is `None` when the entry does not provide it.
#[derive(Clone, Debug)]
pub struct DesktopEntry {
    pub should_show: Option<bool>,
    pub display_name: Option<String>,
    pub name: Option<String>,
    pub id: Option<String>,
    pub executable: Option<String>,
    pub has_icon: bool,
}

/// An application listed in the launcher; `entry` is its position in the
/// list of desktop entries it was taken from.
#[derive(Clone, Debug)]
pub struct AppItem {
    pub name: String,
    pub executable: String,
    pub entry: usize,
}

/// The characters of an optional string, empty when it is absent.
pub open spec fn chars_or_empty(s: Option<String>) -> Seq<char> {
    match s {
        Some(v) => v@,
        None => Seq::empty(),
    }
}

/// The lower-case form of an optional string, empty when it is absent.
pub open spec fn lower_or_empty(s: Option<String>) -> Seq<char> {
    match s {
        Some(v) => lowercase(v@),
        None => Seq::empty(),
    }
}

/// The characters of an optional string, `fallback` when it is absent.
pub open spec fn chars_or(s: Option<String>, fallback: Seq<char>) -> Seq<char> {
    match s {
        Some(v) => v@,
        None => fallback,
    }
}

/// `i` is the first position whose entry satisfies `p`.
pub open spec fn is_first_with(es: Seq<DesktopEntry>, i: int, p: spec_fn(DesktopEntry) -> bool) -> bool {
    &&& 0 <= i < es.len()
    &&& p(es[i])
    &&& forall|j: int| 0 <= j < i ==> !p(#[trigger] es[j])
}

/// No entry satisfies `p`.
pub open spec fn none_with(es: Seq<DesktopEntry>, p: spec_fn(DesktopEntry) -> bool) -> bool {
    forall|j: int| 0 <= j < es.len() ==> !p(#[trigger] es[j])
}

/// `r` is the first position whose entry satisfies `p`, or `None` when
/// there is none.
pub open spec fn first_with(es: Seq<DesktopEntry>, p: spec_fn(DesktopEntry) -> bool, r: Option<usize>) -> bool {
    match r {
        Some(i) => is_first_with(es, i as int, p),
        None => none_with(es, p),
    }
}

/// The launcher lists an entry when it asks to be shown.
pub open spec fn is_listed(e: DesktopEntry) -> bool {
    e.should_show == Some(true)
}

/// The listed applications among the first `n` entries: name (or
/// `Unknown`), executable (or `unknown`) and position.
pub open spec fn listed_apps(es: Seq<DesktopEntry>, n: nat) -> Seq<(Seq<char>, Seq<char>, int)>
    decreases n,
{
    if n == 0 {
        Seq::empty()
    } else {
        let rest = listed_apps(es, (n - 1) as nat);
        let e = es[n - 1];
        if is_listed(e) {
            rest.push((chars_or(e.display_name, "Unknown"@), chars_or(e.executable, "unknown"@), n - 1))
        } else {
            rest
        }
    }
}

pub open spec fn item_view(a: AppItem) -> (Seq<char>, Seq<char>, int) {
    (a.name@, a.executable@, a.entry as int)
}

/// The applications to list in the launcher, in the order of the entries:
/// those that ask to be shown, with their display name (`Unknown` when it
/// cannot be read) and executable (`unknown` when it cannot be read).
pub fn get_all_apps(entries: &Vec<DesktopEntry>) -> (r: Vec<AppItem>)
    ensures
        r@.map_values(|a: AppItem| item_view(a)) == listed_apps(entries@, entries@.len()),
{
    let mut r: Vec<AppItem> = Vec::new();
    let mut i: usize = 0;
    while i < entries.len()
        invariant
            i <= entries.len(),
            r@.map_values(|a: AppItem| item_view(a)) == listed_apps(entries@, i as nat),
        decreases entries.len() - i,
    {
        let e = &entries[i];
        let show = match e.should_show {
            Some(b) => b,
            None => false,
        };
        if show {
            let name = match &e.display_name {
                Some(n) => owned(n.as_str()),
                None => owned("Unknown"),
            };
            let executable = match &e.executable {
                Some(x) => owned(x.as_str()),
                None => owned("unknown"),
            };
            let ghost before = r@;
            r.push(AppItem { name, executable, entry: i });
            assert(r@.map_values(|a: AppItem| item_view(a)) =~= before.map_values(
                |a: AppItem| item_view(a),
            ).push(item_view(r@.last())));
        }
        i += 1;
    }
    r
}

/// The entry's display name is `app_name` (an unreadable name counting as
/// empty).
pub open spec fn has_display_name(e: DesktopEntry, app_name: Seq<char>) -> bool {
    chars_or_empty(e.display_name) == app_name
}

/// The entry to start for an application chosen by name in the launcher:
/// the first whose display name is the given one.
pub fn launch_app(entries: &Vec<DesktopEntry>, app_name: &str) -> (r: Option<usize>)
    ensures
        first_with(entries@, |e: DesktopEntry| has_display_name(e, app_name@), r),
{
    let ghost p = |e: DesktopEntry| has_display_name(e, app_name@);
    let mut i: usize = 0;
    while i < entries.len()
        invariant
            i <= entries.len(),
            p == (|e: DesktopEntry| has_display_name(e, app_name@)),
            forall|j: int| 0 <= j < i ==> !p(#[trigger] entries@[j]),
        decreases entries.len() - i,
    {
        let matches = match &entries[i].display_name {
            Some(n) => str_eq(n.as_str(), app_name),
            None => app_name.unicode_len() == 0,
        };
        if matches {
            proof {
                if entries@[i as int].display_name is None {
                    assert(app_name@ =~= Seq::<char>::empty());
                }
            }
            assert(p(entries@[i as int]));
            return Some(i);
        }
        i += 1;
    }
    None
}

/// The entry is an application of the class (given in lower case): its id,
/// when it has one, contains the class, or its executable does.
pub open spec fn entry_of_class(e: DesktopEntry, class_lower: Seq<char>) -> bool {
    (lower_or_empty(e.id).len() > 0 && has_substring(lower_or_empty(e.id), class_lower))
        || has_substring(lower_or_empty(e.executable), class_lower)
}

/// Lower case of an optional string, empty when absent.
pub fn lower_opt(s: &Option<String>) -> (r: String)
    ensures
        r@ == lower_or_empty(*s),
{
    match s {
        Some(v) => to_lower(v.as_str()),
        None => String::new(),
    }
}

/// The entry to start for a favorite with no open window: the first whose
/// id or executable contains the class, letter case aside.
pub fn launch_app_by_class(entries: &Vec<DesktopEntry>, class: &str) -> (r: Option<usize>)
    ensures
        first_with(entries@, |e: DesktopEntry| entry_of_class(e, lowercase(class@)), r),
        forall|i: int|
            0 <= i < entries@.len() && #[trigger] names_class_in_id_or_executable(entries@[i], class@) ==> r is Some
                && r.unwrap() <= i,
{
    let r = search_by_class(entries, class);
    proof {
        assert forall|i: int|
            0 <= i < entries@.len() && #[trigger] names_class_in_id_or_executable(entries@[i], class@)
            implies r is Some && r.unwrap() <= i by {
            law_class_found_in_executable_or_id(entries@, class@, r, i);
        }
    }
    r
}

/// The first entry whose id or executable contains the class.
fn search_by_class(entries: &Vec<DesktopEntry>, class: &str) -> (r: Option<usize>)
    ensures
        first_with(entries@, |e: DesktopEntry| entry_of_class(e, lowercase(class@)), r),
{
    let class_lower = to_lower(class);
    let ghost p = |e: DesktopEntry| entry_of_class(e, lowercase(class@));
    let mut i: usize = 0;
    while i < entries.len()
        invariant
            i <= entries.len(),
            class_lower@ == lowercase(class@),
            p == (|e: DesktopEntry| entry_of_class(e, lowercase(class@))),
            forall|j: int| 0 <= j < i ==> !p(#[trigger] entries@[j]),
        decreases entries.len() - i,
    {
        let id = lower_opt(&entries[i].id);
        let exe = lower_opt(&entries[i].executable);
        let id_hit = id.unicode_len() > 0 && contains(id.as_str(), class_lower.as_str());
        if id_hit || contains(exe.as_str(), class_lower.as_str()) {
            assert(p(entries@[i as int]));
            return Some(i);
        }
        i += 1;
    }
    None
}

/// `t` occurs in `s` as a block of consecutive characters.
pub open spec fn occurs_in(t: Seq<char>, s: Seq<char>) -> bool {
    exists|j: int| 0 <= j && j + t.len() <= s.len() && #[trigger] s.subrange(j, j + t.len()) == t
}

/// The entry's executable, or its non-empty id, contains the class, letter
/// case aside.
pub open spec fn names_class_in_id_or_executable(e: DesktopEntry, class: Seq<char>) -> bool {
    ||| e.executable matches Some(x) && occurs_in(lowercase(class), lowercase(x@))
    ||| e.id matches Some(v) && lowercase(v@).len() > 0 && occurs_in(lowercase(class), lowercase(v@))
}

/// A favorite is launched whenever some entry's executable or id contains
/// its class: the entry started is that one or an earlier one.
pub proof fn law_class_found_in_executable_or_id(es: Seq<DesktopEntry>, class: Seq<char>, r: Option<usize>, i: int)
    requires
        0 <= i < es.len(),
        names_class_in_id_or_executable(es[i], class),
        first_with(es, |e: DesktopEntry| entry_of_class(e, lowercase(class)), r),
    ensures
        r is Some,
        r.unwrap() <= i,
{
    let p = |e: DesktopEntry| entry_of_class(e, lowercase(class));
    let c = lowercase(class);
    let e = es[i];
    if e.executable is Some && occurs_in(c, lowercase(e.executable->Some_0@)) {
        let x = e.executable->Some_0;
        let j = choose|j: int| 0 <= j && j + c.len() <= lowercase(x@).len() && #[trigger] lowercase(x@).subrange(j, j + c.len()) == c;
        assert(crate::text::occurs_at(lower_or_empty(e.executable), c, j));
    } else {
        let v = e.id->Some_0;
        let j = choose|j: int| 0 <= j && j + c.len() <= lowercase(v@).len() && #[trigger] lowercase(v@).subrange(j, j + c.len()) == c;
        assert(crate::text::occurs_at(lower_or_empty(e.id), c, j));
    }
    assert(p(es[i]));
    if r is Some && r.unwrap() > i {
        assert(!p(es[i]));
    }
}

} // verus!
