//! The mathematical model of the contact slot table.
//!
//! A table is a sequence of optional contacts; `None` is a free physical
//! slot.  Every operation of the engine is specified as a function on such
//! sequences: first-fit allocation, coordinate update, release, and their
//! batch forms.

use vstd::prelude::*;

verus! {

/// One touch contact: an externally supplied identifier and a coordinate
/// pair.  The identifier is opaque; the caller guarantees its uniqueness
/// among concurrently active contacts.
#[derive(Clone, Copy, Debug, PartialEq, Eq, Structural)]
pub struct Touch {
    pub identifier: i64,
    pub x: u16,
    pub y: u16,
}

/// Whether a slot entry holds a contact with the given identifier.
pub open spec fn slot_has_id(e: Option<Touch>, id: i64) -> bool {
    e matches Some(t) && t.identifier == id
}

/// Index of the first slot holding the identifier, scanning from `i`.
pub open spec fn find_id_from(s: Seq<Option<Touch>>, id: i64, i: int) -> Option<int>
    decreases s.len() - i,
{
    if i < 0 || i >= s.len() {
        None
    } else if slot_has_id(s[i], id) {
        Some(i)
    } else {
        find_id_from(s, id, i + 1)
    }
}

/// Index of the slot bound to the identifier, if any.
pub open spec fn find_id(s: Seq<Option<Touch>>, id: i64) -> Option<int> {
    find_id_from(s, id, 0)
}

/// Index of the first free slot, scanning from `i`.
pub open spec fn first_free_from(s: Seq<Option<Touch>>, i: int) -> Option<int>
    decreases s.len() - i,
{
    if i < 0 || i >= s.len() {
        None
    } else if s[i] is None {
        Some(i)
    } else {
        first_free_from(s, i + 1)
    }
}

/// Index of the lowest free slot, if any.
pub open spec fn first_free(s: Seq<Option<Touch>>) -> Option<int> {
    first_free_from(s, 0)
}

/// No two occupied slots hold the same identifier.
pub open spec fn distinct_ids(s: Seq<Option<Touch>>) -> bool {
    forall|i: int, j: int|
        0 <= i < j < s.len() && s[i] is Some && s[j] is Some
            ==> s[i]->Some_0.identifier != s[j]->Some_0.identifier
}

/// First-fit allocation: if the identifier is not yet active and a free
/// slot exists, the lowest free slot receives the contact; otherwise the
/// table is unchanged (capacity exceeded, or the caller broke the
/// uniqueness guarantee).
pub open spec fn alloc_one(s: Seq<Option<Touch>>, t: Touch) -> Seq<Option<Touch>> {
    if find_id(s, t.identifier) is Some {
        s
    } else {
        match first_free(s) {
            Some(i) => s.update(i, Some(t)),
            None => s,
        }
    }
}

/// Coordinate update: the slot bound to the identifier receives the new
/// coordinates; an unknown identifier leaves the table unchanged.
pub open spec fn move_one(s: Seq<Option<Touch>>, t: Touch) -> Seq<Option<Touch>> {
    match find_id(s, t.identifier) {
        Some(i) => s.update(i, Some(t)),
        None => s,
    }
}

/// Release: the slot bound to the identifier becomes free; an unknown
/// identifier leaves the table unchanged.
pub open spec fn release_one(s: Seq<Option<Touch>>, id: i64) -> Seq<Option<Touch>> {
    match find_id(s, id) {
        Some(i) => s.update(i, None),
        None => s,
    }
}

/// Batch allocation, applied in order.
pub open spec fn start_all(s: Seq<Option<Touch>>, ts: Seq<Touch>) -> Seq<Option<Touch>>
    decreases ts.len(),
{
    if ts.len() == 0 {
        s
    } else {
        start_all(alloc_one(s, ts[0]), ts.drop_first())
    }
}

/// Batch coordinate update, applied in order.
pub open spec fn move_all(s: Seq<Option<Touch>>, ts: Seq<Touch>) -> Seq<Option<Touch>>
    decreases ts.len(),
{
    if ts.len() == 0 {
        s
    } else {
        move_all(move_one(s, ts[0]), ts.drop_first())
    }
}

/// Batch release, applied in order; coordinates of the inputs are ignored.
pub open spec fn release_all(s: Seq<Option<Touch>>, ts: Seq<Touch>) -> Seq<Option<Touch>>
    decreases ts.len(),
{
    if ts.len() == 0 {
        s
    } else {
        release_all(release_one(s, ts[0].identifier), ts.drop_first())
    }
}

/// A failed scan from `i` means no slot at or after `i` holds the
/// identifier.
pub proof fn lemma_find_none_all(s: Seq<Option<Touch>>, id: i64, i: int)
    requires
        0 <= i,
        find_id_from(s, id, i) is None,
    ensures
        forall|k: int| i <= k < s.len() ==> !slot_has_id(s[k], id),
    decreases s.len() - i,
{
    if 0 <= i < s.len() {
        lemma_find_none_all(s, id, i + 1);
    }
}

/// A successful scan from `i` yields the first match at or after `i`.
pub proof fn lemma_find_some(s: Seq<Option<Touch>>, id: i64, i: int, j: int)
    requires
        find_id_from(s, id, i) == Some(j),
    ensures
        i <= j < s.len(),
        slot_has_id(s[j], id),
        forall|k: int| i <= k < j ==> !slot_has_id(s[k], id),
    decreases s.len() - i,
{
    if 0 <= i < s.len() && !slot_has_id(s[i], id) {
        lemma_find_some(s, id, i + 1, j);
    }
}

/// A successful free-slot scan from `i` yields the first free slot at or
/// after `i`.
pub proof fn lemma_free_some(s: Seq<Option<Touch>>, i: int, j: int)
    requires
        first_free_from(s, i) == Some(j),
    ensures
        i <= j < s.len(),
        s[j] is None,
        forall|k: int| i <= k < j ==> s[k] is Some,
    decreases s.len() - i,
{
    if 0 <= i < s.len() && s[i] is Some {
        lemma_free_some(s, i + 1, j);
    }
}

/// If every slot in `[i, j)` is occupied and `j` is free (or the end), the
/// free-slot scan from `i` yields `j` (or fails).
pub proof fn lemma_free_scan_hits(s: Seq<Option<Touch>>, i: int, j: int)
    requires
        0 <= i <= j <= s.len(),
        forall|k: int| i <= k < j ==> s[k] is Some,
        j < s.len() ==> s[j] is None,
    ensures
        first_free_from(s, i) == if j < s.len() {
            Some(j)
        } else {
            None::<int>
        },
    decreases j - i,
{
    if i < j {
        lemma_free_scan_hits(s, i + 1, j);
    }
}

/// If slot `j` holds the identifier and no earlier slot at or after `i`
/// does, the scan from `i` yields `j`.
pub proof fn lemma_find_scan_hits(s: Seq<Option<Touch>>, id: i64, i: int, j: int)
    requires
        0 <= i <= j < s.len(),
        slot_has_id(s[j], id),
        forall|k: int| i <= k < j ==> !slot_has_id(s[k], id),
    ensures
        find_id_from(s, id, i) == Some(j),
    decreases j - i,
{
    if i < j {
        lemma_find_scan_hits(s, id, i + 1, j);
    }
}

/// If no slot at or after `i` holds the identifier, the scan from `i`
/// fails.
pub proof fn lemma_all_find_none(s: Seq<Option<Touch>>, id: i64, i: int)
    requires
        forall|k: int| i <= k < s.len() ==> !slot_has_id(s[k], id),
    ensures
        find_id_from(s, id, i) is None,
    decreases s.len() - i,
{
    if 0 <= i < s.len() {
        lemma_all_find_none(s, id, i + 1);
    }
}

} // verus!
