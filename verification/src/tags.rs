//! Tag names: how the player normalises them, toggles them in the filter,
//! and checks a search pattern.

use vstd::prelude::*;
use crate::text::{str_eq, trim, trim_str, views};

verus! {

/// What `str::to_lowercase` gives for a string (Unicode lower-casing).
pub uninterp spec fn lowercase(s: Seq<char>) -> Seq<char>;

/// Whether the `regex` crate compiles a pattern.
pub uninterp spec fn regex_accepts(pattern: Seq<char>) -> bool;

/// `str::to_lowercase`: the lower-case form of `s`, a function of `s` alone.
#[verifier::external_body]
pub(crate) fn to_lowercase(s: &str) -> (r: String)
    ensures
        r@ == lowercase(s@),
{
    s.to_lowercase()
}

/// `regex::Regex::new(pattern)`, reduced to whether it succeeds; whether it
/// does depends on the pattern alone.
#[verifier::external_body]
pub(crate) fn pattern_compiles(pattern: &str) -> (r: bool)
    ensures
        r == regex_accepts(pattern@),
{
    regex::Regex::new(pattern).is_ok()
}

/// `s` without any occurrence of `t`.
pub open spec fn without(s: Seq<Seq<char>>, t: Seq<char>) -> Seq<Seq<char>>
    decreases s.len(),
{
    if s.len() == 0 {
        s
    } else if s.last() == t {
        without(s.drop_last(), t)
    } else {
        without(s.drop_last(), t).push(s.last())
    }
}

/// The active tags after toggling `t`: removed where present, else added
/// at the end.
pub open spec fn toggled(s: Seq<Seq<char>>, t: Seq<char>) -> Seq<Seq<char>> {
    if s.contains(t) {
        without(s, t)
    } else {
        s.push(t)
    }
}

/// Each text lower-cased, in order.
pub open spec fn lowercased(s: Seq<Seq<char>>) -> Seq<Seq<char>> {
    Seq::new(s.len(), |i: int| lowercase(s[i]))
}

/// Each string lower-cased, in order.
pub fn lowercase_all(v: &Vec<String>) -> (r: Vec<String>)
    ensures
        views(r@) == lowercased(views(v@)),
{
    let mut r: Vec<String> = Vec::new();
    let mut i: usize = 0;
    while i < v.len()
        invariant
            i <= v@.len(),
            r@.len() == i,
            forall|j: int| 0 <= j < i ==> (#[trigger] r@[j])@ == lowercase(v@[j]@),
        decreases v@.len() - i,
    {
        r.push(to_lowercase(v[i].as_str()));
        i = i + 1;
    }
    assert(views(r@) =~= lowercased(views(v@)));
    r
}

/// Whether the list holds `t`.
pub fn contains_text(v: &Vec<String>, t: &str) -> (r: bool)
    ensures
        r == views(v@).contains(t@),
{
    let mut i: usize = 0;
    while i < v.len()
        invariant
            i <= v@.len(),
            forall|j: int| 0 <= j < i ==> (#[trigger] v@[j])@ != t@,
        decreases v@.len() - i,
    {
        if str_eq(v[i].as_str(), t) {
            assert(views(v@)[i as int] == t@);
            return true;
        }
        i = i + 1;
    }
    assert forall|j: int| 0 <= j < views(v@).len() implies views(v@)[j] != t@ by {
        assert(v@[j]@ != t@);
    }
    false
}

/// Removes every occurrence of `t`.
pub fn remove_text(v: &mut Vec<String>, t: &str)
    ensures
        views(final(v)@) == without(views(old(v)@), t@),
{
    let ghost orig = views(v@);
    let mut kept: Vec<String> = Vec::new();
    let mut i: usize = 0;
    while i < v.len()
        invariant
            i <= v@.len(),
            orig == views(v@),
            views(kept@) == without(orig.take(i as int), t@),
        decreases v@.len() - i,
    {
        assert(orig.take(i + 1).drop_last() =~= orig.take(i as int));
        assert(orig.take(i + 1).last() == v@[i as int]@);
        if !str_eq(v[i].as_str(), t) {
            kept.push(v[i].clone());
            assert(views(kept@) =~= without(orig.take(i as int), t@).push(v@[i as int]@));
        }
        i = i + 1;
    }
    assert(orig.take(v@.len() as int) =~= orig);
    *v = kept;
}

/// Toggles the lower-case form of `tag` among the active tags: removed
/// where present, else added at the end.
pub fn toggle_tag(active: &mut Vec<String>, tag: &str)
    ensures
        views(final(active)@) == toggled(views(old(active)@), lowercase(tag@)),
{
    let t = to_lowercase(tag);
    if contains_text(active, t.as_str()) {
        remove_text(active, t.as_str());
    } else {
        active.push(t);
        assert(views(active@) =~= views(old(active)@).push(t@));
    }
}

proof fn lemma_contains_push(p: Seq<Seq<char>>, y: Seq<char>, x: Seq<char>)
    ensures
        p.push(y).contains(x) <==> (p.contains(x) || y == x),
{
    if p.push(y).contains(x) {
        let j = choose|j: int| 0 <= j < p.push(y).len() && p.push(y)[j] == x;
        if j < p.len() {
            assert(p[j] == x);
        }
    }
    if p.contains(x) {
        let j = choose|j: int| 0 <= j < p.len() && p[j] == x;
        assert(p.push(y)[j] == x);
    }
    if y == x {
        assert(p.push(y)[p.len() as int] == x);
    }
}

proof fn lemma_without_absent(s: Seq<Seq<char>>, t: Seq<char>)
    ensures
        !without(s, t).contains(t),
        forall|x: Seq<char>| x != t ==> (s.contains(x) <==> #[trigger] without(s, t).contains(x)),
    decreases s.len(),
{
    if s.len() > 0 {
        let p = s.drop_last();
        let y = s.last();
        assert(p.push(y) =~= s);
        lemma_without_absent(p, t);
        let wp = without(p, t);
        assert forall|x: Seq<char>| x != t implies (s.contains(x) <==> #[trigger] without(
            s,
            t,
        ).contains(x)) by {
            lemma_contains_push(p, y, x);
            if y != t {
                lemma_contains_push(wp, y, x);
            }
        }
        if y != t {
            lemma_contains_push(wp, y, t);
        }
    }
}

proof fn lemma_without_not_contained(s: Seq<Seq<char>>, t: Seq<char>)
    requires
        !s.contains(t),
    ensures
        without(s, t) == s,
    decreases s.len(),
{
    if s.len() > 0 {
        let p = s.drop_last();
        assert(!p.contains(t)) by {
            if p.contains(t) {
                let j = choose|j: int| 0 <= j < p.len() && p[j] == t;
                assert(s[j] == t);
            }
        }
        lemma_without_not_contained(p, t);
        assert(s[s.len() - 1] == s.last());
        assert(p.push(s.last()) =~= s);
    }
}

/// Toggling a tag twice leaves the same set of active tags, and when the
/// tag was not active, the very same list.
pub proof fn lemma_toggle_twice(s: Seq<Seq<char>>, t: Seq<char>)
    ensures
        toggled(toggled(s, t), t).to_set() == s.to_set(),
        !s.contains(t) ==> toggled(toggled(s, t), t) == s,
{
    if s.contains(t) {
        lemma_without_absent(s, t);
        let w = without(s, t);
        assert(toggled(w, t) == w.push(t));
        assert forall|x: Seq<char>| #[trigger] w.push(t).to_set().contains(x) == s.to_set().contains(
            x,
        ) by {
            if x == t {
                assert(w.push(t)[w.len() as int] == t);
            } else {
                if w.push(t).contains(x) {
                    let j = choose|j: int| 0 <= j < w.push(t).len() && w.push(t)[j] == x;
                    assert(w[j] == x);
                }
                if w.contains(x) {
                    let j = choose|j: int| 0 <= j < w.len() && w[j] == x;
                    assert(w.push(t)[j] == x);
                }
            }
        }
        assert(w.push(t).to_set() =~= s.to_set());
    } else {
        let p = s.push(t);
        assert(p[s.len() as int] == t);
        assert(p.drop_last() =~= s);
        lemma_without_not_contained(s, t);
    }
}

/// A tag list as the library stores it: each name trimmed and lower-cased,
/// empty names dropped, and each name kept once, where it first occurs.
pub open spec fn normalized_tags(tags: Seq<Seq<char>>) -> Seq<Seq<char>>
    decreases tags.len(),
{
    if tags.len() == 0 {
        Seq::empty()
    } else {
        let prev = normalized_tags(tags.drop_last());
        let t = lowercase(trim(tags.last()));
        if t.len() > 0 && !prev.contains(t) {
            prev.push(t)
        } else {
            prev
        }
    }
}

/// The tags given for a new medium, normalised.
pub fn normalize_tags(tags: Vec<String>) -> (r: Vec<String>)
    ensures
        views(r@) == normalized_tags(views(tags@)),
{
    let ghost orig = views(tags@);
    let mut seen: Vec<String> = Vec::new();
    let mut i: usize = 0;
    while i < tags.len()
        invariant
            i <= tags@.len(),
            orig == views(tags@),
            views(seen@) == normalized_tags(orig.take(i as int)),
        decreases tags@.len() - i,
    {
        assert(orig.take(i + 1).drop_last() =~= orig.take(i as int));
        assert(orig.take(i + 1).last() == tags@[i as int]@);
        let trimmed = trim_str(tags[i].as_str());
        let t = to_lowercase(trimmed.as_str());
        if t.unicode_len() > 0 && !contains_text(&seen, t.as_str()) {
            seen.push(t);
            assert(views(seen@) =~= normalized_tags(orig.take(i as int)).push(
                lowercase(trim(tags@[i as int]@)),
            ));
        }
        i = i + 1;
    }
    assert(orig.take(tags@.len() as int) =~= orig);
    seen
}

/// A normalised tag list holds no empty name and no name twice.
pub proof fn lemma_normalized_tags(tags: Seq<Seq<char>>)
    ensures
        forall|i: int|
            0 <= i < normalized_tags(tags).len() ==> (#[trigger] normalized_tags(tags)[i]).len()
                > 0,
        forall|i: int, j: int|
            0 <= i < j < normalized_tags(tags).len() ==> #[trigger] normalized_tags(tags)[i]
                != #[trigger] normalized_tags(tags)[j],
    decreases tags.len(),
{
    if tags.len() > 0 {
        lemma_normalized_tags(tags.drop_last());
        let prev = normalized_tags(tags.drop_last());
        let n = normalized_tags(tags);
        assert forall|i: int, j: int| 0 <= i < j < n.len() implies #[trigger] n[i] != #[trigger] n[j] by {
            if j == prev.len() {
                assert(n[i] == prev[i]);
                assert(!prev.contains(n[j]));
            } else {
                assert(n[i] == prev[i] && n[j] == prev[j]);
            }
        }
        assert forall|i: int| 0 <= i < n.len() implies (#[trigger] n[i]).len() > 0 by {
            if i < prev.len() {
                assert(n[i] == prev[i]);
            }
        }
    }
}

/// The search pattern after one is set: an empty pattern clears the search.
pub open spec fn pattern_setting(pattern: Option<String>) -> Option<Seq<char>> {
    match pattern {
        Some(p) => if p@.len() > 0 {
            Some(p@)
        } else {
            None
        },
        None => None,
    }
}

/// Keeps a pattern unless it is empty.
pub fn nonempty_pattern(pattern: Option<String>) -> (r: Option<String>)
    ensures
        match r {
            Some(p) => pattern_setting(pattern) == Some(p@),
            None => pattern_setting(pattern) is None,
        },
{
    match pattern {
        Some(p) => if p.unicode_len() > 0 {
            Some(p)
        } else {
            None
        },
        None => None,
    }
}

} // verus!
