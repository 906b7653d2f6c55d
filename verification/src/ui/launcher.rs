//! The launcher's search: which applications match what is typed.

use vstd::prelude::*;
use crate::launcher::AppItem;
use crate::text::{lowercase, to_lower};

verus! {

/// The characters of `q` appear in `s` in the same order, not necessarily
/// next to each other.
pub open spec fn in_order(q: Seq<char>, s: Seq<char>) -> bool
    decreases s.len(),
{
    if q.len() == 0 {
        true
    } else if s.len() == 0 {
        false
    } else if s[0] == q[0] {
        in_order(q.skip(1), s.skip(1))
    } else {
        in_order(q, s.skip(1))
    }
}

/// The application's name holds the query's characters in order, letter
/// case aside (a fuzzy match: `frfx` finds `Firefox`).
pub open spec fn matches_query(a: AppItem, query: Seq<char>) -> bool {
    in_order(lowercase(query), lowercase(a.name@))
}

/// Whether the characters of `q` appear in `s` in order.
pub fn fuzzy_match(q: &str, s: &str) -> (r: bool)
    ensures
        r == in_order(q@, s@),
{
    let qn: usize = q.unicode_len();
    let sn: usize = s.unicode_len();
    let mut i: usize = 0;
    let mut j: usize = 0;
    assert(q@.skip(0) =~= q@);
    assert(s@.skip(0) =~= s@);
    while i < sn && j < qn
        invariant
            qn == q@.len(),
            sn == s@.len(),
            i <= sn,
            j <= qn,
            in_order(q@, s@) == in_order(q@.skip(j as int), s@.skip(i as int)),
        decreases sn - i,
    {
        let ghost qs = q@.skip(j as int);
        let ghost ss = s@.skip(i as int);
        assert(ss.skip(1) =~= s@.skip(i + 1));
        if s.get_char(i) == q.get_char(j) {
            assert(qs.skip(1) =~= q@.skip(j + 1));
            j += 1;
        }
        i += 1;
    }
    if j == qn {
        assert(q@.skip(j as int).len() == 0);
        true
    } else {
        assert(s@.skip(i as int).len() == 0);
        assert(q@.skip(j as int).len() > 0);
        false
    }
}

/// The applications among the first `n` whose name matches the query.
pub open spec fn matching(apps: Seq<AppItem>, query: Seq<char>, n: nat) -> Seq<AppItem>
    decreases n,
{
    if n == 0 {
        Seq::empty()
    } else {
        let rest = matching(apps, query, (n - 1) as nat);
        if matches_query(apps[n - 1], query) {
            rest.push(apps[n - 1])
        } else {
            rest
        }
    }
}

/// The applications shown for a search query: those whose name holds the
/// query's characters in order, letter case aside, in their order.
pub fn filter_apps(apps: &Vec<AppItem>, query: &str) -> (r: Vec<AppItem>)
    ensures
        r@ == matching(apps@, query@, apps@.len()),
        forall|k: int|
            0 <= k < r@.len() ==> exists|i: int| 0 <= i < apps@.len() && #[trigger] r@[k] == apps@[i],
{
    let query_lower = to_lower(query);
    let mut r: Vec<AppItem> = Vec::new();
    let mut i: usize = 0;
    while i < apps.len()
        invariant
            i <= apps.len(),
            query_lower@ == lowercase(query@),
            r@ == matching(apps@, query@, i as nat),
        decreases apps.len() - i,
    {
        let name = to_lower(apps[i].name.as_str());
        if fuzzy_match(query_lower.as_str(), name.as_str()) {
            let a = &apps[i];
            r.push(
                AppItem {
                    name: a.name.clone(),
                    executable: a.executable.clone(),
                    entry: a.entry,
                },
            );
            assert(r@.last() == apps@[i as int]);
        }
        i += 1;
    }
    proof {
        law_search_keeps_items(apps@, query@);
    }
    r
}

/// The search hands back items of the list itself, unchanged (name,
/// executable and desktop entry alike), never new ones.
pub proof fn law_search_keeps_items(apps: Seq<AppItem>, query: Seq<char>)
    ensures
        forall|k: int|
            0 <= k < matching(apps, query, apps.len()).len() ==> exists|i: int|
                0 <= i < apps.len() && #[trigger] matching(apps, query, apps.len())[k] == apps[i],
{
    lemma_matching_members(apps, query, apps.len());
}

proof fn lemma_matching_members(apps: Seq<AppItem>, query: Seq<char>, n: nat)
    requires
        n <= apps.len(),
    ensures
        forall|k: int|
            0 <= k < matching(apps, query, n).len() ==> exists|i: int|
                0 <= i < n && #[trigger] matching(apps, query, n)[k] == apps[i],
    decreases n,
{
    if n > 0 {
        lemma_matching_members(apps, query, (n - 1) as nat);
        let prev = matching(apps, query, (n - 1) as nat);
        let cur = matching(apps, query, n);
        assert forall|k: int| 0 <= k < cur.len() implies exists|i: int|
            0 <= i < n && #[trigger] cur[k] == apps[i] by {
            if k < prev.len() {
                assert(cur[k] == prev[k]);
                let i = choose|i: int| 0 <= i < n - 1 && #[trigger] prev[k] == apps[i];
                assert(cur[k] == apps[i]);
            } else {
                assert(cur[k] == apps[n - 1]);
            }
        }
    }
}

/// `idx` picks, in increasing positions of `s`, the characters of `q` one
/// after the other.
pub open spec fn picks(q: Seq<char>, s: Seq<char>, idx: Seq<int>) -> bool {
    &&& idx.len() == q.len()
    &&& forall|k: int| 0 <= k < idx.len() ==> 0 <= #[trigger] idx[k] < s.len() && s[idx[k]] == q[k]
    &&& forall|a: int, b: int| 0 <= a < b < idx.len() ==> #[trigger] idx[a] < #[trigger] idx[b]
}

/// Fuzzy matching is exactly "the query's characters occur in the name in
/// order": it holds if and only if increasing positions of the name carry
/// the query's characters.
pub proof fn law_fuzzy_match_is_ordered_subsequence(q: Seq<char>, s: Seq<char>)
    ensures
        in_order(q, s) <==> exists|idx: Seq<int>| picks(q, s, idx),
    decreases s.len(),
{
    if q.len() == 0 {
        assert(picks(q, s, Seq::<int>::empty()));
    } else if s.len() == 0 {
        if exists|idx: Seq<int>| picks(q, s, idx) {
            let idx = choose|idx: Seq<int>| picks(q, s, idx);
            assert(0 <= idx[0] < s.len());
        }
    } else {
        let s1 = s.skip(1);
        if s[0] == q[0] {
            let q1 = q.skip(1);
            law_fuzzy_match_is_ordered_subsequence(q1, s1);
            if in_order(q1, s1) {
                let idx1 = choose|idx: Seq<int>| picks(q1, s1, idx);
                let idx = seq![0int] + idx1.map_values(|x: int| x + 1);
                assert forall|k: int| 0 <= k < idx.len() implies 0 <= #[trigger] idx[k] < s.len() && s[idx[k]] == q[k] by {
                    if k > 0 {
                        assert(idx[k] == idx1[k - 1] + 1);
                        assert(s1[idx1[k - 1]] == q1[k - 1]);
                    }
                }
                assert forall|a: int, b: int| 0 <= a < b < idx.len() implies #[trigger] idx[a] < #[trigger] idx[b] by {
                    if a > 0 {
                        assert(idx1[a - 1] < idx1[b - 1]);
                    } else {
                        assert(idx1[b - 1] >= 0);
                    }
                }
                assert(picks(q, s, idx));
            }
            if exists|idx: Seq<int>| picks(q, s, idx) {
                let idx = choose|idx: Seq<int>| picks(q, s, idx);
                let idx1 = idx.skip(1).map_values(|x: int| x - 1);
                assert forall|k: int| 0 <= k < idx1.len() implies 0 <= #[trigger] idx1[k] < s1.len() && s1[idx1[k]] == q1[k] by {
                    assert(idx[0] < idx[k + 1]);
                    assert(0 <= idx[k + 1] < s.len() && s[idx[k + 1]] == q[k + 1]);
                }
                assert forall|a: int, b: int| 0 <= a < b < idx1.len() implies #[trigger] idx1[a] < #[trigger] idx1[b] by {
                    assert(idx[a + 1] < idx[b + 1]);
                }
                assert(picks(q1, s1, idx1));
            }
        } else {
            law_fuzzy_match_is_ordered_subsequence(q, s1);
            if in_order(q, s1) {
                let idx1 = choose|idx: Seq<int>| picks(q, s1, idx);
                let idx = idx1.map_values(|x: int| x + 1);
                assert forall|k: int| 0 <= k < idx.len() implies 0 <= #[trigger] idx[k] < s.len() && s[idx[k]] == q[k] by {
                    assert(0 <= idx1[k] < s1.len() && s1[idx1[k]] == q[k]);
                }
                assert forall|a: int, b: int| 0 <= a < b < idx.len() implies #[trigger] idx[a] < #[trigger] idx[b] by {
                    assert(idx1[a] < idx1[b]);
                }
                assert(picks(q, s, idx));
            }
            if exists|idx: Seq<int>| picks(q, s, idx) {
                let idx = choose|idx: Seq<int>| picks(q, s, idx);
                assert(0 <= idx[0] < s.len() && s[idx[0]] == q[0]);
                assert(idx[0] != 0);
                let idx1 = idx.map_values(|x: int| x - 1);
                assert forall|k: int| 0 <= k < idx1.len() implies 0 <= #[trigger] idx1[k] < s1.len() && s1[idx1[k]] == q[k] by {
                    if k > 0 {
                        assert(idx[0] < idx[k]);
                    }
                    assert(0 <= idx[k] < s.len() && s[idx[k]] == q[k]);
                }
                assert forall|a: int, b: int| 0 <= a < b < idx1.len() implies #[trigger] idx1[a] < #[trigger] idx1[b] by {
                    assert(idx[a] < idx[b]);
                }
                assert(picks(q, s1, idx1));
            }
        }
    }
}

} // verus!
