//! The contact slot table and the contact update gateway.
//!
//! `UsbHidTouchpadHandler` owns a bounded pool of physical contact slots,
//! the binding of external contact identifiers to slot indices, and the
//! round-robin scan cursor that the interrupt poll reads.  The mutation
//! surface (`touch_start`, `touch_move`, `touch_end`, `touch_cancel`)
//! translates batches of externally observed touch events into slot-table
//! operations.

use crate::contacts::{
    alloc_one, distinct_ids, find_id, find_id_from, first_free, first_free_from,
    lemma_find_none_all, lemma_find_some, move_all, move_one, release_all, release_one,
    slot_has_id, start_all, Touch,
};
use crate::descriptor::{report_descriptor, report_descriptor_spec};
use vstd::prelude::*;

verus! {

/// The simulated multi-touch digitizer.
///
/// A slot entry of `None` is a free physical slot; `Some(t)` holds the
/// identifier and last reported coordinates of an active contact, so the
/// identifier-to-slot mapping is the set of occupied entries.  No two
/// occupied slots share an identifier.
pub struct UsbHidTouchpadHandler {
    report_descriptor: Vec<u8>,
    max_contact_count: u8,
    next_idx: u8,
    slots: Vec<Option<Touch>>,
}

impl UsbHidTouchpadHandler {
    /// The slot table as a sequence; index is the physical slot id.
    pub closed spec fn slots_seq(self) -> Seq<Option<Touch>> {
        self.slots@
    }

    /// The device capability: number of physical slots, set at
    /// construction.
    pub closed spec fn max_contacts(self) -> u8 {
        self.max_contact_count
    }

    /// The capability as a mathematical integer.
    pub open spec fn capacity(self) -> int {
        self.max_contacts() as int
    }

    /// The physical slot index the next interrupt poll will report.
    pub closed spec fn cursor(self) -> int {
        self.next_idx as int
    }

    /// The configured report descriptor bytes.
    pub closed spec fn descriptor_seq(self) -> Seq<u8> {
        self.report_descriptor@
    }

    /// Well-formedness: the slot pool has exactly the configured capacity,
    /// the capacity fits the 5-bit contact-identifier field of the wire
    /// format, the cursor points into the pool, occupied slots hold
    /// pairwise distinct identifiers, and the descriptor length fits the
    /// 16-bit length field of the class descriptor.
    pub open spec fn wf(self) -> bool {
        &&& self.slots_seq().len() == self.capacity()
        &&& 1 <= self.capacity() <= 31
        &&& 0 <= self.cursor() < self.capacity()
        &&& distinct_ids(self.slots_seq())
        &&& self.descriptor_seq().len() <= 0xFFFF
    }

    /// The physical slot bound to an identifier, if any.
    pub open spec fn slot_of(self, identifier: i64) -> Option<int> {
        find_id(self.slots_seq(), identifier)
    }

    /// Whether an identifier is bound to a slot.
    pub open spec fn active(self, identifier: i64) -> bool {
        self.slot_of(identifier) is Some
    }

    /// The coordinates held by a physical slot.
    pub open spec fn snapshot_spec(self, slot_index: int) -> Option<(u16, u16)> {
        match self.slots_seq()[slot_index] {
            Some(t) => Some((t.x, t.y)),
            None => None,
        }
    }

    /// Builds a handler with the given slot capacity, all slots free, the
    /// cursor on slot 0, and the default report descriptor.
    pub fn with_capacity(max_contact_count: u8) -> (r: Self)
        requires
            1 <= max_contact_count <= 31,
        ensures
            r.wf(),
            r.max_contacts() == max_contact_count,
            r.cursor() == 0,
            forall|i: int| 0 <= i < r.slots_seq().len() ==> r.slots_seq()[i] is None,
            r.descriptor_seq() == report_descriptor_spec(),
    {
        let mut slots: Vec<Option<Touch>> = Vec::new();
        let mut k: u8 = 0;
        while k < max_contact_count
            invariant
                k <= max_contact_count,
                slots@.len() == k as int,
                forall|i: int| 0 <= i < k as int ==> slots@[i] is None,
            decreases max_contact_count - k,
        {
            slots.push(None);
            k = k + 1;
        }
        UsbHidTouchpadHandler {
            report_descriptor: report_descriptor(),
            max_contact_count,
            next_idx: 0,
            slots,
        }
    }

    /// Builds the default handler: four contact slots.
    pub fn new() -> (r: Self)
        ensures
            r.wf(),
            r.max_contacts() == 4,
            r.cursor() == 0,
            forall|i: int| 0 <= i < r.slots_seq().len() ==> r.slots_seq()[i] is None,
            r.descriptor_seq() == report_descriptor_spec(),
    {
        Self::with_capacity(4)
    }

    /// The slot capacity.
    pub fn contact_count_max(&self) -> (r: u8)
        ensures
            r == self.max_contacts(),
    {
        self.max_contact_count
    }

    /// The slot index the next interrupt poll will report.
    pub fn scan_cursor(&self) -> (r: u8)
        ensures
            r as int == self.cursor(),
    {
        self.next_idx
    }

    /// Looks an identifier up in the slot table.
    pub fn slot_index_of(&self, identifier: i64) -> (r: Option<usize>)
        ensures
            match r {
                Some(i) => self.slot_of(identifier) == Some(i as int),
                None => self.slot_of(identifier) is None,
            },
    {
        let n = self.slots.len();
        let mut k: usize = 0;
        while k < n
            invariant
                k <= n,
                n == self.slots@.len(),
                find_id(self.slots@, identifier) == find_id_from(
                    self.slots@,
                    identifier,
                    k as int,
                ),
            decreases n - k,
        {
            match self.slots[k] {
                Some(t) => {
                    if t.identifier == identifier {
                        return Some(k);
                    }
                },
                None => {},
            }
            k = k + 1;
        }
        None
    }

    /// Scans for the lowest free slot.
    fn first_free_index(&self) -> (r: Option<usize>)
        ensures
            match r {
                Some(i) => first_free(self.slots@) == Some(i as int),
                None => first_free(self.slots@) is None,
            },
    {
        let n = self.slots.len();
        let mut k: usize = 0;
        while k < n
            invariant
                k <= n,
                n == self.slots@.len(),
                first_free(self.slots@) == first_free_from(self.slots@, k as int),
            decreases n - k,
        {
            if self.slots[k].is_none() {
                return Some(k);
            }
            k = k + 1;
        }
        None
    }

    /// First-fit allocation of a slot for a new contact.  A start whose
    /// identifier is already active, or which arrives with every slot
    /// occupied, is silently dropped.
    pub fn allocate(&mut self, t: Touch) -> (r: Option<usize>)
        requires
            old(self).wf(),
        ensures
            final(self).wf(),
            final(self).max_contacts() == old(self).max_contacts(),
            final(self).cursor() == old(self).cursor(),
            final(self).descriptor_seq() == old(self).descriptor_seq(),
            final(self).slots_seq() == alloc_one(old(self).slots_seq(), t),
            ({
                let s0 = old(self).slots_seq();
                if find_id(s0, t.identifier) is Some {
                    r is None
                } else {
                    match first_free(s0) {
                        Some(i) => r == Some(i as usize),
                        None => r is None,
                    }
                }
            }),
    {
        if self.slot_index_of(t.identifier).is_some() {
            return None;
        }
        match self.first_free_index() {
            Some(i) => {
                proof {
                    lemma_find_none_all(self.slots@, t.identifier, 0);
                    crate::contacts::lemma_free_some(self.slots@, 0, i as int);
                }
                let ghost s0 = self.slots@;
                self.slots[i] = Some(t);
                proof {
                    let s1 = self.slots@;
                    assert forall|a: int, b: int|
                        0 <= a < b < s1.len() && s1[a] is Some && s1[b] is Some implies s1[a]
                        ->Some_0.identifier != s1[b]->Some_0.identifier by {
                        if a != i as int && b != i as int {
                            assert(s1[a] == s0[a] && s1[b] == s0[b]);
                        } else if a == i as int {
                            assert(!slot_has_id(s0[b], t.identifier));
                        } else {
                            assert(!slot_has_id(s0[a], t.identifier));
                        }
                    }
                }
                Some(i)
            },
            None => None,
        }
    }

    /// Overwrites the coordinates of an active contact; a move whose
    /// identifier is not active is a no-op.
    pub fn update(&mut self, t: Touch)
        requires
            old(self).wf(),
        ensures
            final(self).wf(),
            final(self).max_contacts() == old(self).max_contacts(),
            final(self).cursor() == old(self).cursor(),
            final(self).descriptor_seq() == old(self).descriptor_seq(),
            final(self).slots_seq() == move_one(old(self).slots_seq(), t),
    {
        match self.slot_index_of(t.identifier) {
            Some(i) => {
                proof {
                    lemma_find_some(self.slots@, t.identifier, 0, i as int);
                }
                let ghost s0 = self.slots@;
                self.slots[i] = Some(t);
                proof {
                    let s1 = self.slots@;
                    assert forall|a: int, b: int|
                        0 <= a < b < s1.len() && s1[a] is Some && s1[b] is Some implies s1[a]
                        ->Some_0.identifier != s1[b]->Some_0.identifier by {
                        if a != i as int && b != i as int {
                            assert(s1[a] == s0[a] && s1[b] == s0[b]);
                        } else if a == i as int {
                            assert(s0[a]->Some_0.identifier == t.identifier);
                        } else {
                            assert(s0[b]->Some_0.identifier == t.identifier);
                        }
                    }
                }
            },
            None => {},
        }
    }

    /// Frees the slot of an active contact and drops the identifier
    /// binding; an unknown identifier is a no-op.
    pub fn release(&mut self, identifier: i64)
        requires
            old(self).wf(),
        ensures
            final(self).wf(),
            final(self).max_contacts() == old(self).max_contacts(),
            final(self).cursor() == old(self).cursor(),
            final(self).descriptor_seq() == old(self).descriptor_seq(),
            final(self).slots_seq() == release_one(old(self).slots_seq(), identifier),
    {
        match self.slot_index_of(identifier) {
            Some(i) => {
                proof {
                    lemma_find_some(self.slots@, identifier, 0, i as int);
                }
                let ghost s0 = self.slots@;
                self.slots[i] = None;
                proof {
                    let s1 = self.slots@;
                    assert forall|a: int, b: int|
                        0 <= a < b < s1.len() && s1[a] is Some && s1[b] is Some implies s1[a]
                        ->Some_0.identifier != s1[b]->Some_0.identifier by {
                        assert(s1[a] == s0[a] && s1[b] == s0[b]);
                    }
                }
            },
            None => {},
        }
    }

    /// Borrow of the configured report descriptor bytes.
    pub(crate) fn descriptor_ref(&self) -> (r: &Vec<u8>)
        ensures
            r@ == self.descriptor_seq(),
    {
        &self.report_descriptor
    }

    /// Advances the scan cursor to the next slot, wrapping at the
    /// capacity, so that repeated polls report every slot round-robin.
    pub(crate) fn advance_cursor(&mut self)
        requires
            old(self).wf(),
        ensures
            final(self).wf(),
            final(self).max_contacts() == old(self).max_contacts(),
            final(self).descriptor_seq() == old(self).descriptor_seq(),
            final(self).slots_seq() == old(self).slots_seq(),
            final(self).cursor() == (old(self).cursor() + 1) % old(self).capacity(),
    {
        self.next_idx = (self.next_idx + 1) % self.max_contact_count;
    }

    /// Read-only access to one physical slot, used by the dispatcher to
    /// build a report.
    pub fn snapshot(&self, slot_index: usize) -> (r: Option<(u16, u16)>)
        requires
            self.wf(),
            slot_index < self.capacity(),
        ensures
            r == self.snapshot_spec(slot_index as int),
    {
        match self.slots[slot_index] {
            Some(t) => Some((t.x, t.y)),
            None => None,
        }
    }

    /// Starts every touch of the batch, in order: each is allocated a slot
    /// first-fit, or silently dropped when capacity is exceeded.
    pub fn touch_start(&mut self, touches: &Vec<Touch>)
        requires
            old(self).wf(),
        ensures
            final(self).wf(),
            final(self).max_contacts() == old(self).max_contacts(),
            final(self).cursor() == old(self).cursor(),
            final(self).descriptor_seq() == old(self).descriptor_seq(),
            final(self).slots_seq() == start_all(old(self).slots_seq(), touches@),
    {
        proof {
            assert(touches@.skip(0) =~= touches@);
        }
        let n = touches.len();
        let mut k: usize = 0;
        while k < n
            invariant
                k <= n,
                n == touches@.len(),
                self.wf(),
                self.max_contacts() == old(self).max_contacts(),
                self.cursor() == old(self).cursor(),
                self.descriptor_seq() == old(self).descriptor_seq(),
                start_all(old(self).slots_seq(), touches@) == start_all(
                    self.slots_seq(),
                    touches@.skip(k as int),
                ),
            decreases n - k,
        {
            let ghost pre = self.slots_seq();
            self.allocate(touches[k]);
            proof {
                assert(touches@.skip(k as int)[0] == touches@[k as int]);
                assert(touches@.skip(k as int).drop_first() =~= touches@.skip(k as int + 1));
            }
            k = k + 1;
        }
        proof {
            assert(touches@.skip(n as int) =~= Seq::<Touch>::empty());
        }
    }

    /// Moves every touch of the batch, in order: the slot of each active
    /// identifier receives the new coordinates.
    pub fn touch_move(&mut self, touches: &Vec<Touch>)
        requires
            old(self).wf(),
        ensures
            final(self).wf(),
            final(self).max_contacts() == old(self).max_contacts(),
            final(self).cursor() == old(self).cursor(),
            final(self).descriptor_seq() == old(self).descriptor_seq(),
            final(self).slots_seq() == move_all(old(self).slots_seq(), touches@),
    {
        proof {
            assert(touches@.skip(0) =~= touches@);
        }
        let n = touches.len();
        let mut k: usize = 0;
        while k < n
            invariant
                k <= n,
                n == touches@.len(),
                self.wf(),
                self.max_contacts() == old(self).max_contacts(),
                self.cursor() == old(self).cursor(),
                self.descriptor_seq() == old(self).descriptor_seq(),
                move_all(old(self).slots_seq(), touches@) == move_all(
                    self.slots_seq(),
                    touches@.skip(k as int),
                ),
            decreases n - k,
        {
            self.update(touches[k]);
            proof {
                assert(touches@.skip(k as int)[0] == touches@[k as int]);
                assert(touches@.skip(k as int).drop_first() =~= touches@.skip(k as int + 1));
            }
            k = k + 1;
        }
        proof {
            assert(touches@.skip(n as int) =~= Seq::<Touch>::empty());
        }
    }

    /// Ends every touch of the batch, in order: the slot of each active
    /// identifier is freed.  Coordinates of the inputs are ignored.
    pub fn touch_end(&mut self, touches: &Vec<Touch>)
        requires
            old(self).wf(),
        ensures
            final(self).wf(),
            final(self).max_contacts() == old(self).max_contacts(),
            final(self).cursor() == old(self).cursor(),
            final(self).descriptor_seq() == old(self).descriptor_seq(),
            final(self).slots_seq() == release_all(old(self).slots_seq(), touches@),
    {
        proof {
            assert(touches@.skip(0) =~= touches@);
        }
        let n = touches.len();
        let mut k: usize = 0;
        while k < n
            invariant
                k <= n,
                n == touches@.len(),
                self.wf(),
                self.max_contacts() == old(self).max_contacts(),
                self.cursor() == old(self).cursor(),
                self.descriptor_seq() == old(self).descriptor_seq(),
                release_all(old(self).slots_seq(), touches@) == release_all(
                    self.slots_seq(),
                    touches@.skip(k as int),
                ),
            decreases n - k,
        {
            self.release(touches[k].identifier);
            proof {
                assert(touches@.skip(k as int)[0] == touches@[k as int]);
                assert(touches@.skip(k as int).drop_first() =~= touches@.skip(k as int + 1));
            }
            k = k + 1;
        }
        proof {
            assert(touches@.skip(n as int) =~= Seq::<Touch>::empty());
        }
    }

    /// Cancels every touch of the batch.  A cancelled gesture and a
    /// normally ended one are treated identically.
    pub fn touch_cancel(&mut self, touches: &Vec<Touch>)
        requires
            old(self).wf(),
        ensures
            final(self).wf(),
            final(self).max_contacts() == old(self).max_contacts(),
            final(self).cursor() == old(self).cursor(),
            final(self).descriptor_seq() == old(self).descriptor_seq(),
            final(self).slots_seq() == release_all(old(self).slots_seq(), touches@),
    {
        self.touch_end(touches)
    }
}

} // verus!
