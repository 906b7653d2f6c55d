//! Styling text and icon lookup for dock buttons.

use vstd::prelude::*;
use crate::launcher::{DesktopEntry, first_with, lower_opt, lower_or_empty, none_with};
use crate::text::{concat2, contains, has_substring, lowercase, replace_all, replaced, str_eq, to_lower};

verus! {

/// The style sheet that paints the dock's content in a color.
pub open spec fn background_css_text(color: Seq<char>) -> Seq<char> {
    ".dock-content { background-color: "@ + color + "; }"@
}

/// The style sheet text that gives the dock's content its background
/// color.
pub fn background_css(color: &str) -> (r: String)
    ensures
        r@ == background_css_text(color@),
{
    let head = concat2(".dock-content { background-color: ", color);
    concat2(head.as_str(), "; }")
}

/// A class with the common suffixes and vendor prefixes of desktop ids
/// removed (`code-url-handler` becomes `code`).
pub open spec fn cleaned_class(c: Seq<char>) -> Seq<char> {
    replaced(
        replaced(
            replaced(replaced(c, "-url-handler"@, Seq::empty()), ".desktop"@, Seq::empty()),
            "org.gnome."@,
            Seq::empty(),
        ),
        "com.visualstudio."@,
        Seq::empty(),
    )
}

/// The icon names to look up in the icon theme for a window class, in
/// order: none for an empty class, else the class in lower case, then its
/// cleaned form.
pub fn icon_theme_candidates(class: &str) -> (r: Vec<String>)
    ensures
        class@.len() == 0 ==> r@.len() == 0,
        class@.len() > 0 ==> r@.len() == 2 && r@[0]@ == lowercase(class@) && r@[1]@ == cleaned_class(
            lowercase(class@),
        ),
{
    let mut r: Vec<String> = Vec::new();
    if class.unicode_len() == 0 {
        return r;
    }
    let lower = to_lower(class);
    proof {
        reveal_strlit("-url-handler");
        reveal_strlit(".desktop");
        reveal_strlit("org.gnome.");
        reveal_strlit("com.visualstudio.");
    }
    let a = replace_all(lower.as_str(), "-url-handler", "");
    let b = replace_all(a.as_str(), ".desktop", "");
    let c = replace_all(b.as_str(), "org.gnome.", "");
    let d = replace_all(c.as_str(), "com.visualstudio.", "");
    assert(""@ =~= Seq::<char>::empty()) by {
        reveal_strlit("");
    }
    r.push(lower);
    r.push(d);
    r
}

/// The first pass of the icon search: the entry's id is the class, or the
/// class with `.desktop` appended, or its name is the class.
pub open spec fn exact_icon_match(e: DesktopEntry, class_lower: Seq<char>) -> bool {
    &&& e.has_icon
    &&& {
        ||| lower_or_empty(e.id) == class_lower
        ||| lower_or_empty(e.id) == class_lower + ".desktop"@
        ||| lower_or_empty(e.name) == class_lower
    }
}

/// One of two strings contains the other.
pub open spec fn overlaps(a: Seq<char>, b: Seq<char>) -> bool {
    has_substring(a, b) || has_substring(b, a)
}

/// The second pass: the entry's id or name, when present, contains the
/// class or is contained in it.
pub open spec fn fuzzy_icon_match(e: DesktopEntry, class_lower: Seq<char>) -> bool {
    &&& e.has_icon
    &&& {
        ||| lower_or_empty(e.id).len() > 0 && overlaps(lower_or_empty(e.id), class_lower)
        ||| lower_or_empty(e.name).len() > 0 && overlaps(lower_or_empty(e.name), class_lower)
    }
}

/// The third pass: the entry's executable, when present, contains the
/// class or is contained in it.
pub open spec fn executable_icon_match(e: DesktopEntry, class_lower: Seq<char>) -> bool {
    &&& e.has_icon
    &&& lower_or_empty(e.executable).len() > 0
    &&& overlaps(lower_or_empty(e.executable), class_lower)
}

/// The entry whose icon stands for a window class, when the icon theme has
/// none: nothing for an empty class; else the first entry with an icon
/// matching exactly, else the first matching loosely by id or name, else
/// the first matching by executable.
pub open spec fn icon_entry_spec(es: Seq<DesktopEntry>, class: Seq<char>, r: Option<usize>) -> bool {
    let cl = lowercase(class);
    let p1 = |e: DesktopEntry| exact_icon_match(e, cl);
    let p2 = |e: DesktopEntry| fuzzy_icon_match(e, cl);
    let p3 = |e: DesktopEntry| executable_icon_match(e, cl);
    if class.len() == 0 {
        r is None
    } else if !none_with(es, p1) {
        first_with(es, p1, r)
    } else if !none_with(es, p2) {
        first_with(es, p2, r)
    } else {
        first_with(es, p3, r)
    }
}

/// Whether an entry matches a class in the given pass of the icon search.
fn entry_matches(e: &DesktopEntry, class_lower: &str, pass: u8) -> (r: bool)
    requires
        pass < 3,
    ensures
        pass == 0 ==> r == exact_icon_match(*e, class_lower@),
        pass == 1 ==> r == fuzzy_icon_match(*e, class_lower@),
        pass == 2 ==> r == executable_icon_match(*e, class_lower@),
{
    if !e.has_icon {
        return false;
    }
    let id = lower_opt(&e.id);
    let name = lower_opt(&e.name);
    if pass == 0 {
        let with_suffix = concat2(class_lower, ".desktop");
        str_eq(id.as_str(), class_lower) || str_eq(id.as_str(), with_suffix.as_str()) || str_eq(
            name.as_str(),
            class_lower,
        )
    } else if pass == 1 {
        let id_hit = id.unicode_len() > 0 && (contains(id.as_str(), class_lower) || contains(
            class_lower,
            id.as_str(),
        ));
        let name_hit = name.unicode_len() > 0 && (contains(name.as_str(), class_lower) || contains(
            class_lower,
            name.as_str(),
        ));
        id_hit || name_hit
    } else {
        let exe = lower_opt(&e.executable);
        exe.unicode_len() > 0 && (contains(exe.as_str(), class_lower) || contains(
            class_lower,
            exe.as_str(),
        ))
    }
}

/// The first entry that matches in one pass of the icon search.
fn first_in_pass(entries: &Vec<DesktopEntry>, class_lower: &str, pass: u8) -> (r: Option<usize>)
    requires
        pass < 3,
    ensures
        pass == 0 ==> first_with(entries@, |e: DesktopEntry| exact_icon_match(e, class_lower@), r),
        pass == 1 ==> first_with(entries@, |e: DesktopEntry| fuzzy_icon_match(e, class_lower@), r),
        pass == 2 ==> first_with(entries@, |e: DesktopEntry| executable_icon_match(e, class_lower@), r),
{
    let ghost p = if pass == 0 {
        |e: DesktopEntry| exact_icon_match(e, class_lower@)
    } else if pass == 1 {
        |e: DesktopEntry| fuzzy_icon_match(e, class_lower@)
    } else {
        |e: DesktopEntry| executable_icon_match(e, class_lower@)
    };
    let mut i: usize = 0;
    while i < entries.len()
        invariant
            i <= entries.len(),
            pass < 3,
            pass == 0 ==> p == (|e: DesktopEntry| exact_icon_match(e, class_lower@)),
            pass == 1 ==> p == (|e: DesktopEntry| fuzzy_icon_match(e, class_lower@)),
            pass == 2 ==> p == (|e: DesktopEntry| executable_icon_match(e, class_lower@)),
            forall|j: int| 0 <= j < i ==> !p(#[trigger] entries@[j]),
        decreases entries.len() - i,
    {
        if entry_matches(&entries[i], class_lower, pass) {
            assert(p(entries@[i as int]));
            return Some(i);
        }
        i += 1;
    }
    None
}

/// The three passes of the icon search, in order.
fn search_icon_entry(entries: &Vec<DesktopEntry>, class: &str) -> (r: Option<usize>)
    ensures
        icon_entry_spec(entries@, class@, r),
{
    if class.unicode_len() == 0 {
        return None;
    }
    let class_lower = to_lower(class);
    let first = first_in_pass(entries, class_lower.as_str(), 0);
    if first.is_some() {
        return first;
    }
    let second = first_in_pass(entries, class_lower.as_str(), 1);
    if second.is_some() {
        return second;
    }
    first_in_pass(entries, class_lower.as_str(), 2)
}

/// The desktop entry whose icon is shown for a window class when the icon
/// theme has no icon for it (see [`icon_entry_spec`]). An entry with an
/// icon that names the class exactly always wins over loose matches.
pub fn icon_entry_for_class(entries: &Vec<DesktopEntry>, class: &str) -> (r: Option<usize>)
    ensures
        icon_entry_spec(entries@, class@, r),
        forall|i: int|
            0 <= i < entries@.len() && class@.len() > 0 && #[trigger] names_class_exactly(entries@[i], class@)
                ==> r is Some && r.unwrap() <= i && names_class_exactly(entries@[r.unwrap() as int], class@),
{
    let r = search_icon_entry(entries, class);
    proof {
        assert forall|i: int|
            0 <= i < entries@.len() && class@.len() > 0 && #[trigger] names_class_exactly(entries@[i], class@)
            implies r is Some && r.unwrap() <= i && names_class_exactly(entries@[r.unwrap() as int], class@) by {
            law_exact_match_beats_loose(entries@, class@, r, i);
        }
    }
    r
}

/// The icon search ignores letter case: two non-empty classes with the
/// same lower-case form lead to the same desktop entry, and to the same
/// icon-theme names (see [`icon_theme_candidates`], whose names depend only
/// on the lower-case form).
pub proof fn law_icon_lookup_ignores_case(es: Seq<DesktopEntry>, c1: Seq<char>, c2: Seq<char>, r: Option<usize>)
    requires
        lowercase(c1) == lowercase(c2),
        c1.len() > 0,
        c2.len() > 0,
    ensures
        icon_entry_spec(es, c1, r) == icon_entry_spec(es, c2, r),
        cleaned_class(lowercase(c1)) == cleaned_class(lowercase(c2)),
{
}

/// The entry has an icon and names the class exactly, letter case aside:
/// its id is the class or the class followed by `.desktop`, or its name is
/// the class.
pub open spec fn names_class_exactly(e: DesktopEntry, class: Seq<char>) -> bool {
    let c = lowercase(class);
    let id = match e.id {
        Some(v) => lowercase(v@),
        None => Seq::<char>::empty(),
    };
    let name = match e.name {
        Some(v) => lowercase(v@),
        None => Seq::<char>::empty(),
    };
    &&& e.has_icon
    &&& (id == c || id == c + ".desktop"@ || name == c)
}

/// An exact match always beats a loose one: when some entry names a
/// non-empty class exactly, the icon comes from such an entry, at or
/// before it.
pub proof fn law_exact_match_beats_loose(es: Seq<DesktopEntry>, class: Seq<char>, r: Option<usize>, i: int)
    requires
        0 <= i < es.len(),
        class.len() > 0,
        names_class_exactly(es[i], class),
        icon_entry_spec(es, class, r),
    ensures
        r is Some,
        r.unwrap() <= i,
        names_class_exactly(es[r.unwrap() as int], class),
{
    let cl = lowercase(class);
    let p1 = |e: DesktopEntry| exact_icon_match(e, cl);
    assert(p1(es[i]));
    assert(!none_with(es, p1));
    let k = r.unwrap() as int;
    if k > i {
        assert(!p1(es[i]));
    }
    assert(p1(es[k]));
}

} // verus!
