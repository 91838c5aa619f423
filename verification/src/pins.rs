//! The mini-queue: media pinned to play next, in the order they were
//! pinned, ahead of the regular queue.

use vstd::prelude::*;

verus! {

/// The first position of `x` in `s` (for `s` holding `x`).
pub open spec fn first_index(s: Seq<i64>, x: i64) -> int
    decreases s.len(),
{
    if s.len() == 0 {
        0
    } else if s[0] == x {
        0
    } else {
        1 + first_index(s.drop_first(), x)
    }
}

proof fn lemma_first_index(s: Seq<i64>, x: i64, i: int)
    requires
        0 <= i <= s.len(),
        forall|j: int| 0 <= j < i ==> s[j] != x,
        i < s.len() ==> s[i] == x,
    ensures
        first_index(s, x) == i,
    decreases i,
{
    if i > 0 {
        let t = s.drop_first();
        assert forall|j: int| 0 <= j < i - 1 implies t[j] != x by {
            assert(t[j] == s[j + 1]);
        }
        lemma_first_index(t, x, i - 1);
    }
}

pub fn position_of(v: &Vec<i64>, x: i64) -> (r: Option<usize>)
    ensures
        match r {
            Some(i) => v@.contains(x) && i == first_index(v@, x) && i < v@.len() && v@[i as int]
                == x,
            None => !v@.contains(x),
        },
{
    let mut i: usize = 0;
    while i < v.len()
        invariant
            i <= v@.len(),
            forall|j: int| 0 <= j < i ==> v@[j] != x,
        decreases v@.len() - i,
    {
        if v[i] == x {
            proof {
                lemma_first_index(v@, x, i as int);
            }
            return Some(i);
        }
        i = i + 1;
    }
    None
}

/// The mini-queue after pinning `id`: added at the end unless pinned already.
pub open spec fn pinned(s: Seq<i64>, id: i64) -> Seq<i64> {
    if s.contains(id) {
        s
    } else {
        s.push(id)
    }
}

/// The mini-queue without any occurrence of `id`.
pub open spec fn unpinned(s: Seq<i64>, id: i64) -> Seq<i64>
    decreases s.len(),
{
    if s.len() == 0 {
        s
    } else if s.last() == id {
        unpinned(s.drop_last(), id)
    } else {
        unpinned(s.drop_last(), id).push(s.last())
    }
}

/// The mini-queue after moving `id` one place down (towards the end) or
/// up: it trades places with its neighbour; at the edge, or when `id` is not
/// pinned, nothing changes.
pub open spec fn shifted(s: Seq<i64>, id: i64, down: bool) -> Seq<i64> {
    if !s.contains(id) {
        s
    } else {
        let i = first_index(s, id);
        if down {
            if i + 1 < s.len() {
                s.update(i, s[i + 1]).update(i + 1, id)
            } else {
                s
            }
        } else {
            if i > 0 {
                s.update(i, s[i - 1]).update(i - 1, id)
            } else {
                s
            }
        }
    }
}

/// Pins `id` at the end of the mini-queue unless it is there already.
pub fn pin(v: &mut Vec<i64>, id: i64)
    ensures
        final(v)@ == pinned(old(v)@, id),
{
    match position_of(v, id) {
        Some(_) => {},
        None => v.push(id),
    }
}

/// Removes every occurrence of `id` from the mini-queue.
pub fn unpin(v: &mut Vec<i64>, id: i64)
    ensures
        final(v)@ == unpinned(old(v)@, id),
        !final(v)@.contains(id),
{
    let ghost orig = v@;
    let mut kept: Vec<i64> = Vec::new();
    let mut i: usize = 0;
    while i < v.len()
        invariant
            i <= v@.len(),
            orig == v@,
            kept@ == unpinned(orig.take(i as int), id),
            !kept@.contains(id),
        decreases v@.len() - i,
    {
        assert(orig.take(i + 1).drop_last() =~= orig.take(i as int));
        assert(orig.take(i + 1).last() == v@[i as int]);
        if v[i] != id {
            let ghost before = kept@;
            kept.push(v[i]);
            assert(!kept@.contains(id)) by {
                if kept@.contains(id) {
                    let j = choose|j: int| 0 <= j < kept@.len() && kept@[j] == id;
                    if j < before.len() {
                        assert(before[j] == id);
                    }
                }
            }
        }
        i = i + 1;
    }
    assert(orig.take(v@.len() as int) =~= orig);
    *v = kept;
}

/// Moves `id` one place down or up in the mini-queue.
pub fn shift_pin(v: &mut Vec<i64>, id: i64, down: bool)
    ensures
        final(v)@ == shifted(old(v)@, id, down),
{
    match position_of(v, id) {
        Some(i) => {
            if down {
                if i < v.len() - 1 {
                    let next = v[i + 1];
                    v.set(i, next);
                    v.set(i + 1, id);
                }
            } else {
                if i > 0 {
                    let prev = v[i - 1];
                    v.set(i, prev);
                    v.set(i - 1, id);
                }
            }
        },
        None => {},
    }
}

/// Takes the first pinned medium off the mini-queue.
pub fn take_first(v: &mut Vec<i64>) -> (r: Option<i64>)
    ensures
        match r {
            Some(id) => old(v)@.len() > 0 && id == old(v)@[0] && final(v)@ == old(v)@.drop_first(),
            None => old(v)@.len() == 0 && final(v)@ == old(v)@,
        },
{
    if v.len() == 0 {
        None
    } else {
        let id = v.remove(0);
        assert(v@ =~= old(v)@.drop_first());
        Some(id)
    }
}

/// Unpinning takes out every occurrence of the id and nothing else: the
/// other pinned media stay, each as often as before and in the same order.
pub proof fn lemma_unpinned_keeps_the_others(s: Seq<i64>, id: i64)
    ensures
        unpinned(s, id) == s.filter(|x: i64| x != id),
        !unpinned(s, id).contains(id),
        forall|x: i64| x != id ==> #[trigger] unpinned(s, id).to_multiset().count(x) == s.to_multiset().count(x),
    decreases s.len(),
{
    reveal(Seq::filter);
    broadcast use vstd::seq_lib::group_to_multiset_ensures;
    if s.len() > 0 {
        lemma_unpinned_keeps_the_others(s.drop_last(), id);
        let t = s.drop_last();
        assert(s =~= t.push(s.last()));
        let u = unpinned(t, id);
        if s.last() != id {
            assert(unpinned(s, id) == u.push(s.last()));
            assert forall|k: int| 0 <= k < u.push(s.last()).len() implies u.push(s.last())[k] != id by {
                if k < u.len() {
                    assert(u[k] == u.push(s.last())[k]);
                }
            }
        }
    }
}

} // verus!
