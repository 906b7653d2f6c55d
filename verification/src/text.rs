//! String helpers on the character view of strings.

use vstd::prelude::*;

verus! {

/// `pat` occurs in `s` starting at character position `i`.
pub open spec fn occurs_at(s: Seq<char>, pat: Seq<char>, i: int) -> bool {
    &&& 0 <= i
    &&& i + pat.len() <= s.len()
    &&& s.subrange(i, i + pat.len()) == pat
}

/// `pat` is a substring of `s`.
pub open spec fn has_substring(s: Seq<char>, pat: Seq<char>) -> bool {
    exists|i: int| occurs_at(s, pat, i)
}

/// What `std`'s `str::to_lowercase` gives for a string, by its characters.
pub uninterp spec fn lowercase(s: Seq<char>) -> Seq<char>;

/// Calls `str::to_lowercase` of std, which maps each character to its
/// Unicode lowercase form. The contract only names the result: it is
/// `lowercase` of the argument's characters, so equal inputs give equal
/// outputs; the Unicode case tables are not restated.
#[verifier::external_body]
pub(crate) fn to_lower(s: &str) -> (r: String)
    ensures
        r@ == lowercase(s@),
{
    s.to_lowercase()
}

/// Substring test, as `str::contains` with a string pattern.
pub fn contains(s: &str, pat: &str) -> (r: bool)
    ensures
        r == has_substring(s@, pat@),
{
    let n: usize = s.unicode_len();
    let m: usize = pat.unicode_len();
    if m > n {
        assert forall|i: int| !occurs_at(s@, pat@, i) by {}
        return false;
    }
    let pat_owned = pat.to_owned();
    let mut i: usize = 0;
    loop
        invariant
            n == s@.len(),
            m == pat@.len(),
            m <= n,
            i <= n - m,
            pat_owned@ == pat@,
            forall|j: int| 0 <= j < i ==> !occurs_at(s@, pat@, j),
        ensures
            forall|j: int| 0 <= j <= n - m ==> !occurs_at(s@, pat@, j),
        decreases n - m - i,
    {
        let sub = s.substring_char(i, i + m);
        if sub.to_owned() == pat_owned {
            assert(occurs_at(s@, pat@, i as int));
            return true;
        }
        if i == n - m {
            break;
        }
        i += 1;
    }
    assert forall|j: int| !occurs_at(s@, pat@, j) by {
        if 0 <= j <= n - m {
        }
    }
    false
}

/// `s` with every occurrence of `pat` replaced by `rep`, occurrences taken
/// from left to right without overlap (the behaviour of `str::replace`).
pub open spec fn replaced(s: Seq<char>, pat: Seq<char>, rep: Seq<char>) -> Seq<char>
    decreases s.len(),
{
    if pat.len() == 0 || s.len() < pat.len() {
        s
    } else if s.subrange(0, pat.len() as int) == pat {
        rep + replaced(s.skip(pat.len() as int), pat, rep)
    } else {
        seq![s[0]] + replaced(s.skip(1), pat, rep)
    }
}

/// Replaces every non-overlapping occurrence of a non-empty `pat`, scanning
/// from the left, as `str::replace` does.
pub fn replace_all(s: &str, pat: &str, rep: &str) -> (r: String)
    requires
        pat@.len() > 0,
    ensures
        r@ == replaced(s@, pat@, rep@),
{
    let n: usize = s.unicode_len();
    let m: usize = pat.unicode_len();
    let pat_owned = pat.to_owned();
    let mut res = String::new();
    let mut i: usize = 0;
    assert(s@.skip(0) =~= s@);
    assert(res@ + replaced(s@, pat@, rep@) =~= replaced(s@, pat@, rep@));
    while i < n
        invariant
            n == s@.len(),
            m == pat@.len(),
            m > 0,
            i <= n,
            pat_owned@ == pat@,
            res@ + replaced(s@.skip(i as int), pat@, rep@) == replaced(s@, pat@, rep@),
        decreases n - i,
    {
        let ghost rest = s@.skip(i as int);
        if m <= n - i {
            let sub = s.substring_char(i, i + m);
            assert(rest.subrange(0, m as int) =~= s@.subrange(i as int, i + m));
            if sub.to_owned() == pat_owned {
                assert(rest.subrange(0, m as int) == pat@);
                assert(rest.skip(m as int) == s@.skip(i + m));
                res.append(rep);
                assert(res@ + replaced(s@.skip(i + m), pat@, rep@) == replaced(s@, pat@, rep@));
                i = i + m;
                continue;
            }
            assert(rest.subrange(0, m as int) != pat@);
        }
        let one = s.substring_char(i, i + 1);
        assert(one@ == seq![rest[0]]);
        assert(rest.skip(1) == s@.skip(i + 1));
        res.append(one);
        assert(res@ + replaced(s@.skip(i + 1), pat@, rep@) == replaced(s@, pat@, rep@));
        i = i + 1;
    }
    assert(s@.skip(n as int).len() == 0);
    res
}

/// The characters of each string of a sequence.
pub open spec fn strings_view(v: Seq<String>) -> Seq<Seq<char>> {
    v.map_values(|x: String| x@)
}

/// A fresh `String` holding the characters of `s`.
pub fn owned(s: &str) -> (r: String)
    ensures
        r@ == s@,
{
    s.to_owned()
}

/// The concatenation of two strings.
pub fn concat2(a: &str, b: &str) -> (r: String)
    ensures
        r@ == a@ + b@,
{
    let mut r = a.to_owned();
    r.append(b);
    r
}

/// Character-wise equality of two strings.
pub fn str_eq(a: &str, b: &str) -> (r: bool)
    ensures
        r == (a@ == b@),
{
    a.to_owned() == b.to_owned()
}

/// Whether one of the strings equals `s`.
pub fn contains_string(v: &Vec<String>, s: &str) -> (r: bool)
    ensures
        r == strings_view(v@).contains(s@),
{
    let mut i: usize = 0;
    while i < v.len()
        invariant
            i <= v.len(),
            forall|j: int| 0 <= j < i ==> strings_view(v@)[j] != s@,
        decreases v.len() - i,
    {
        if str_eq(v[i].as_str(), s) {
            assert(strings_view(v@)[i as int] == s@);
            return true;
        }
        i += 1;
    }
    false
}

} // verus!
