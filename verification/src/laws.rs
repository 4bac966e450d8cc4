//! General laws of the contact slot table, stated over its mathematical
//! model and proved once for all inputs.

use crate::contacts::{
    alloc_one, distinct_ids, find_id, first_free, lemma_all_find_none, lemma_find_none_all,
    lemma_find_scan_hits, lemma_find_some, lemma_free_scan_hits, lemma_free_some, move_one,
    release_one, slot_has_id, start_all, Touch,
};
use vstd::prelude::*;

verus! {

/// The occupied slots of `s` are exactly the first `j`.
pub open spec fn filled_prefix(s: Seq<Option<Touch>>, j: int) -> bool {
    &&& 0 <= j <= s.len()
    &&& forall|k: int| 0 <= k < j ==> s[k] is Some
    &&& forall|k: int| j <= k < s.len() ==> s[k] is None
}

/// First-fit fills in ascending order: starting a batch of pairwise
/// distinct, not yet active identifiers on a table whose occupied slots
/// are exactly the first `j` keeps those `j` slots, places the `a`-th
/// touch of the batch in slot `j + a` while slots remain, and drops the
/// rest, leaving every later slot free.  In particular, on an empty table
/// a batch longer than the capacity fills slot `k` with touch `k` for
/// every `k` below the capacity, and the extra starts change nothing.
pub proof fn lemma_start_first_fit(s: Seq<Option<Touch>>, ts: Seq<Touch>, j: int)
    requires
        filled_prefix(s, j),
        forall|a: int, b: int|
            0 <= a < b < ts.len() ==> ts[a].identifier != ts[b].identifier,
        forall|a: int| 0 <= a < ts.len() ==> find_id(s, #[trigger] ts[a].identifier) is None,
    ensures
        start_all(s, ts).len() == s.len(),
        forall|k: int| 0 <= k < j ==> start_all(s, ts)[k] == s[k],
        forall|k: int|
            j <= k < s.len() && k - j < ts.len() ==> start_all(s, ts)[k] == Some(ts[k - j]),
        forall|k: int| j + ts.len() <= k < s.len() ==> start_all(s, ts)[k] is None,
    decreases ts.len(),
{
    if ts.len() > 0 {
        let t = ts[0];
        let tail = ts.drop_first();
        if j < s.len() {
            lemma_free_scan_hits(s, 0, j);
            let s1 = s.update(j, Some(t));
            assert(alloc_one(s, t) == s1);
            assert(filled_prefix(s1, j + 1));
            assert forall|a: int| 0 <= a < tail.len() implies find_id(
                s1,
                #[trigger] tail[a].identifier,
            ) is None by {
                let id = tail[a].identifier;
                assert(id == ts[a + 1].identifier);
                lemma_find_none_all(s, id, 0);
                assert forall|k: int| 0 <= k < s1.len() implies !slot_has_id(s1[k], id) by {
                    if k != j {
                        assert(s1[k] == s[k]);
                    }
                }
                lemma_all_find_none(s1, id, 0);
            }
            lemma_start_first_fit(s1, tail, j + 1);
            assert(start_all(s, ts) == start_all(s1, tail));
            assert forall|k: int| 0 <= k < j implies start_all(s, ts)[k] == s[k] by {
                assert(start_all(s1, tail)[k] == s1[k]);
                assert(s1[k] == s[k]);
            }
            assert forall|k: int|
                j <= k < s.len() && k - j < ts.len() implies start_all(s, ts)[k] == Some(
                ts[k - j],
            ) by {
                if k == j {
                    assert(start_all(s1, tail)[k] == s1[j]);
                } else {
                    assert(start_all(s1, tail)[k] == Some(tail[k - j - 1]));
                    assert(tail[k - j - 1] == ts[k - j]);
                }
            }
        } else {
            lemma_free_scan_hits(s, 0, j);
            assert(alloc_one(s, t) == s);
            lemma_start_first_fit(s, tail, j);
        }
    }
}

/// A start followed by a move of the same identifier leaves the allocated
/// slot holding the moved coordinates: after `start(id, x, y)` and
/// `move(id, x2, y2)`, the slot bound to `id` holds `(x2, y2)`.
pub proof fn lemma_start_then_move(s: Seq<Option<Touch>>, id: i64, x: u16, y: u16, x2: u16, y2: u16)
    requires
        find_id(s, id) is None,
        first_free(s) is Some,
    ensures
        ({
            let s1 = alloc_one(s, Touch { identifier: id, x, y });
            let s2 = move_one(s1, Touch { identifier: id, x: x2, y: y2 });
            &&& find_id(s1, id) == first_free(s)
            &&& find_id(s2, id) == first_free(s)
            &&& s2[first_free(s)->Some_0] == Some(Touch { identifier: id, x: x2, y: y2 })
        }),
{
    let i = first_free(s)->Some_0;
    lemma_free_some(s, 0, i);
    lemma_find_none_all(s, id, 0);
    let s1 = s.update(i, Some(Touch { identifier: id, x, y }));
    assert(alloc_one(s, Touch { identifier: id, x, y }) == s1);
    lemma_find_scan_hits(s1, id, 0, i);
    let s2 = s1.update(i, Some(Touch { identifier: id, x: x2, y: y2 }));
    assert(move_one(s1, Touch { identifier: id, x: x2, y: y2 }) == s2);
    lemma_find_scan_hits(s2, id, 0, i);
}

/// A release is final: afterwards the identifier is inactive, any move or
/// second release of it is a no-op, and the freed slot stays free.
pub proof fn lemma_end_is_final(s: Seq<Option<Touch>>, id: i64, x: u16, y: u16)
    requires
        distinct_ids(s),
        find_id(s, id) is Some,
    ensures
        ({
            let i = find_id(s, id)->Some_0;
            let s1 = release_one(s, id);
            &&& s1[i] is None
            &&& find_id(s1, id) is None
            &&& move_one(s1, Touch { identifier: id, x, y }) == s1
            &&& release_one(s1, id) == s1
        }),
{
    let i = find_id(s, id)->Some_0;
    lemma_find_some(s, id, 0, i);
    let s1 = s.update(i, None);
    assert(release_one(s, id) == s1);
    assert forall|k: int| 0 <= k < s1.len() implies !slot_has_id(s1[k], id) by {
        if k != i {
            assert(s1[k] == s[k]);
            if s[k] is Some {
                assert(s[k]->Some_0.identifier != s[i]->Some_0.identifier);
            }
        }
    }
    lemma_all_find_none(s1, id, 0);
}

/// First-fit determinism on reuse: a start that is undone by a release
/// restores the table exactly, and a subsequent start with a fresh
/// identifier is allocated the same slot, the lowest free one.
pub proof fn lemma_slot_reuse(s: Seq<Option<Touch>>, t1: Touch, t2: Touch)
    requires
        find_id(s, t1.identifier) is None,
        find_id(s, t2.identifier) is None,
        first_free(s) is Some,
    ensures
        ({
            let i = first_free(s)->Some_0;
            let s2 = release_one(alloc_one(s, t1), t1.identifier);
            &&& s2 == s
            &&& alloc_one(s2, t2) == s.update(i, Some(t2))
        }),
{
    let i = first_free(s)->Some_0;
    lemma_free_some(s, 0, i);
    lemma_find_none_all(s, t1.identifier, 0);
    let s1 = s.update(i, Some(t1));
    assert(alloc_one(s, t1) == s1);
    lemma_find_scan_hits(s1, t1.identifier, 0, i);
    assert(release_one(s1, t1.identifier) == s1.update(i, None));
    assert(s1.update(i, None) =~= s);
}

} // verus!
