//! The play queue: the media of the library that carry every checked tag
//! and, while a search is set, match it on their title, artist, uri or one
//! of their tags; in library order.

use vstd::prelude::*;
use crate::model::MediaInfo;
use crate::tags::{pattern_compiles, regex_accepts};
use crate::text::{str_eq, views};

verus! {

/// Whether the `regex` crate finds a match of a (compiling) pattern in a text.
pub uninterp spec fn regex_matches(pattern: Seq<char>, text: Seq<char>) -> bool;

/// `regex::Regex::new(pattern)` followed by `Regex::is_match(text)` on the
/// compiled pattern; a pattern that does not compile matches nothing. The
/// answer depends on the pattern and the text alone.
#[verifier::external_body]
fn pattern_matches(pattern: &str, text: &str) -> (r: bool)
    ensures
        r == (regex_accepts(pattern@) && regex_matches(pattern@, text@)),
{
    match regex::Regex::new(pattern) {
        Ok(re) => re.is_match(text),
        Err(_) => false,
    }
}

/// The pattern hits a text.
pub open spec fn hits(pattern: Seq<char>, text: Seq<char>) -> bool {
    regex_accepts(pattern) && regex_matches(pattern, text)
}

/// The medium carries every tag of `active`.
pub open spec fn carries_all(m: MediaInfo, active: Seq<Seq<char>>) -> bool {
    forall|i: int| 0 <= i < active.len() ==> #[trigger] views(m.tags@).contains(active[i])
}

/// The pattern hits the medium's title, artist, uri or one of its tags.
pub open spec fn media_hit(m: MediaInfo, pattern: Seq<char>) -> bool {
    ||| (m.title matches Some(t) && hits(pattern, t@))
    ||| (m.artist matches Some(a) && hits(pattern, a@))
    ||| hits(pattern, m.uri@)
    ||| exists|i: int| 0 <= i < m.tags@.len() && hits(pattern, #[trigger] m.tags@[i]@)
}

/// The medium belongs in the queue.
pub open spec fn in_queue(m: MediaInfo, active: Seq<Seq<char>>, pattern: Option<Seq<char>>) -> bool {
    &&& carries_all(m, active)
    &&& match pattern {
        Some(p) => media_hit(m, p),
        None => true,
    }
}

/// The ids of the media that belong in the queue, in library order.
pub open spec fn queue_spec(
    media: Seq<MediaInfo>,
    active: Seq<Seq<char>>,
    pattern: Option<Seq<char>>,
) -> Seq<i64>
    decreases media.len(),
{
    if media.len() == 0 {
        Seq::empty()
    } else {
        let prev = queue_spec(media.drop_last(), active, pattern);
        if in_queue(media.last(), active, pattern) {
            prev.push(media.last().id)
        } else {
            prev
        }
    }
}

/// The pattern a search filters by: the search when it is set, not empty
/// and compiles; else none.
pub open spec fn search_filter(search: Option<String>) -> Option<Seq<char>> {
    match search {
        Some(p) => if p@.len() > 0 && regex_accepts(p@) {
            Some(p@)
        } else {
            None
        },
        None => None,
    }
}

/// The pattern a search filters by.
pub fn effective_pattern(search: &Option<String>) -> (r: Option<&str>)
    ensures
        match r {
            Some(p) => search_filter(*search) == Some(p@),
            None => search_filter(*search) is None,
        },
{
    match search {
        Some(p) => if p.unicode_len() > 0 && pattern_compiles(p.as_str()) {
            Some(p.as_str())
        } else {
            None
        },
        None => None,
    }
}

fn carries_tag(m: &MediaInfo, tag: &str) -> (r: bool)
    ensures
        r == views(m.tags@).contains(tag@),
{
    let mut i: usize = 0;
    while i < m.tags.len()
        invariant
            i <= m.tags@.len(),
            forall|j: int| 0 <= j < i ==> (#[trigger] m.tags@[j])@ != tag@,
        decreases m.tags@.len() - i,
    {
        if str_eq(m.tags[i].as_str(), tag) {
            assert(views(m.tags@)[i as int] == tag@);
            return true;
        }
        i = i + 1;
    }
    assert forall|j: int| 0 <= j < views(m.tags@).len() implies views(m.tags@)[j] != tag@ by {
        assert(m.tags@[j]@ != tag@);
    }
    false
}

/// Whether the medium carries every active tag.
pub fn carries_all_tags(m: &MediaInfo, active: &Vec<String>) -> (r: bool)
    ensures
        r == carries_all(*m, views(active@)),
{
    let mut i: usize = 0;
    while i < active.len()
        invariant
            i <= active@.len(),
            forall|j: int| 0 <= j < i ==> #[trigger] views(m.tags@).contains(views(active@)[j]),
        decreases active@.len() - i,
    {
        if !carries_tag(m, active[i].as_str()) {
            assert(!views(m.tags@).contains(views(active@)[i as int]));
            return false;
        }
        i = i + 1;
    }
    true
}

/// Whether the pattern hits the medium's title, artist, uri or a tag.
pub fn media_matches(m: &MediaInfo, pattern: &str) -> (r: bool)
    ensures
        r == media_hit(*m, pattern@),
{
    let title = match &m.title {
        Some(t) => pattern_matches(pattern, t.as_str()),
        None => false,
    };
    let artist = match &m.artist {
        Some(a) => pattern_matches(pattern, a.as_str()),
        None => false,
    };
    let uri = pattern_matches(pattern, m.uri.as_str());
    if title || artist || uri {
        return true;
    }
    let mut i: usize = 0;
    while i < m.tags.len()
        invariant
            i <= m.tags@.len(),
            forall|j: int| 0 <= j < i ==> !hits(pattern@, #[trigger] m.tags@[j]@),
        decreases m.tags@.len() - i,
    {
        if pattern_matches(pattern, m.tags[i].as_str()) {
            return true;
        }
        i = i + 1;
    }
    false
}

/// The queue: the ids of the media that carry every active tag and, given a
/// pattern, that it hits; in library order.
pub fn queue_ids(media: &Vec<MediaInfo>, active: &Vec<String>, pattern: Option<&str>) -> (r: Vec<
    i64,
>)
    ensures
        r@ == queue_spec(
            media@,
            views(active@),
            match pattern {
                Some(p) => Some(p@),
                None => None,
            },
        ),
{
    let ghost pat = match pattern {
        Some(p) => Some(p@),
        None => None,
    };
    let mut r: Vec<i64> = Vec::new();
    let mut i: usize = 0;
    while i < media.len()
        invariant
            i <= media@.len(),
            pat == (match pattern {
                Some(p) => Some(p@),
                None => None,
            }),
            r@ == queue_spec(media@.take(i as int), views(active@), pat),
        decreases media@.len() - i,
    {
        assert(media@.take(i + 1).drop_last() =~= media@.take(i as int));
        assert(media@.take(i + 1).last() == media@[i as int]);
        let m = &media[i];
        let keep = carries_all_tags(m, active) && match pattern {
            Some(p) => media_matches(m, p),
            None => true,
        };
        if keep {
            r.push(m.id);
        }
        i = i + 1;
    }
    assert(media@.take(media@.len() as int) =~= media@);
    r
}

/// A medium is wanted in the queue: it carries each checked tag, and, when a
/// pattern is set, the pattern compiles and matches its title, its artist,
/// its uri or one of its tags.
spec fn wanted(m: MediaInfo, active: Seq<Seq<char>>, pattern: Option<Seq<char>>) -> bool {
    &&& forall|j: int|
        0 <= j < active.len() ==> exists|t: int|
            0 <= t < m.tags@.len() && #[trigger] m.tags@[t]@ == #[trigger] active[j]
    &&& match pattern {
        Some(p) => regex_accepts(p) && (
        (m.title matches Some(x) && regex_matches(p, x@))
            || (m.artist matches Some(x) && regex_matches(p, x@))
            || regex_matches(p, m.uri@)
            || exists|t: int| 0 <= t < m.tags@.len() && regex_matches(p, #[trigger] m.tags@[t]@)),
        None => true,
    }
}

proof fn lemma_wanted(m: MediaInfo, active: Seq<Seq<char>>, pattern: Option<Seq<char>>)
    ensures
        in_queue(m, active, pattern) <==> wanted(m, active, pattern),
{
    let tv = views(m.tags@);
    if carries_all(m, active) {
        assert forall|j: int| 0 <= j < active.len() implies exists|t: int|
            0 <= t < m.tags@.len() && #[trigger] m.tags@[t]@ == #[trigger] active[j] by {
            assert(tv.contains(active[j]));
            let t = choose|t: int| 0 <= t < tv.len() && tv[t] == active[j];
            assert(m.tags@[t]@ == active[j]);
        }
    }
    if forall|j: int|
        0 <= j < active.len() ==> exists|t: int|
            0 <= t < m.tags@.len() && #[trigger] m.tags@[t]@ == #[trigger] active[j] {
        assert forall|j: int| 0 <= j < active.len() implies #[trigger] tv.contains(active[j]) by {
            let t = choose|t: int| 0 <= t < m.tags@.len() && #[trigger] m.tags@[t]@ == active[j];
            assert(tv[t] == active[j]);
        }
    }
    if let Some(p) = pattern {
        if exists|i: int| 0 <= i < m.tags@.len() && hits(p, #[trigger] m.tags@[i]@) {
            let i = choose|i: int| 0 <= i < m.tags@.len() && hits(p, #[trigger] m.tags@[i]@);
            assert(regex_matches(p, m.tags@[i]@));
        }
        if regex_accepts(p) && exists|t: int|
            0 <= t < m.tags@.len() && regex_matches(p, #[trigger] m.tags@[t]@) {
            let t = choose|t: int| 0 <= t < m.tags@.len() && regex_matches(p, #[trigger] m.tags@[t]@);
            assert(hits(p, m.tags@[t]@));
        }
    }
}

/// The queue is exactly the media that carry every checked tag and, with a
/// search set, that the search matches on title, artist, uri or a tag, in
/// library order: `idx` gives, for each place of the queue, the position in
/// the library of the medium whose id stands there; the positions rise, and
/// every medium so wanted has its place. A medium that lacks a checked tag
/// is never in the queue, whatever the search.
pub proof fn lemma_queue_is_wanted_media_in_order(
    media: Seq<MediaInfo>,
    active: Seq<Seq<char>>,
    pattern: Option<Seq<char>>,
) -> (idx: Seq<int>)
    ensures
        idx.len() == queue_spec(media, active, pattern).len(),
        forall|k: int|
            0 <= k < idx.len() ==> 0 <= #[trigger] idx[k] < media.len() && queue_spec(
                media,
                active,
                pattern,
            )[k] == media[idx[k]].id,
        forall|k1: int, k2: int| 0 <= k1 < k2 < idx.len() ==> idx[k1] < idx[k2],
        forall|k: int|
            0 <= k < idx.len() ==> {
                let m = #[trigger] media[idx[k]];
                &&& forall|j: int|
                    0 <= j < active.len() ==> exists|t: int|
                        0 <= t < m.tags@.len() && #[trigger] m.tags@[t]@ == #[trigger] active[j]
                &&& match pattern {
                    Some(p) => regex_accepts(p) && (
                    (m.title matches Some(x) && regex_matches(p, x@))
                        || (m.artist matches Some(x) && regex_matches(p, x@))
                        || regex_matches(p, m.uri@)
                        || exists|t: int|
                        0 <= t < m.tags@.len() && regex_matches(p, #[trigger] m.tags@[t]@)),
                    None => true,
                }
            },
        forall|i: int|
            0 <= i < media.len() && ({
                let m = #[trigger] media[i];
                &&& forall|j: int|
                    0 <= j < active.len() ==> exists|t: int|
                        0 <= t < m.tags@.len() && #[trigger] m.tags@[t]@ == #[trigger] active[j]
                &&& match pattern {
                    Some(p) => regex_accepts(p) && (
                    (m.title matches Some(x) && regex_matches(p, x@))
                        || (m.artist matches Some(x) && regex_matches(p, x@))
                        || regex_matches(p, m.uri@)
                        || exists|t: int|
                        0 <= t < m.tags@.len() && regex_matches(p, #[trigger] m.tags@[t]@)),
                    None => true,
                }
            }) ==> idx.contains(i),
    decreases media.len(),
{
    if media.len() == 0 {
        Seq::empty()
    } else {
        let n = media.len() - 1;
        let front = media.drop_last();
        let prev = lemma_queue_is_wanted_media_in_order(front, active, pattern);
        let m = media.last();
        lemma_wanted(m, active, pattern);
        assert forall|i: int| 0 <= i < n implies #[trigger] front[i] == media[i] by {}
        let idx = if in_queue(m, active, pattern) {
            prev.push(n)
        } else {
            prev
        };
        assert forall|i: int| 0 <= i < media.len() && wanted(media[i], active, pattern) implies idx.contains(
            i,
        ) by {
            if i < n {
                assert(front[i] == media[i]);
                assert(prev.contains(i));
                let k = choose|k: int| 0 <= k < prev.len() && prev[k] == i;
                assert(idx[k] == i);
            } else {
                assert(idx[idx.len() - 1] == i);
            }
        }
        assert forall|k: int| 0 <= k < idx.len() implies wanted(#[trigger] media[idx[k]], active, pattern) by {
            if k < prev.len() {
                assert(idx[k] == prev[k]);
                assert(front[prev[k]] == media[prev[k]]);
            }
        }
        idx
    }
}

} // verus!
