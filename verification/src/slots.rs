//! The set of frame slots that a program refers to, and their dense numbering.

use vstd::prelude::*;

verus! {

/// Whether the numbers are in strictly ascending order.
pub open spec fn sorted(slots: Seq<u16>) -> bool {
    forall|i: int, j: int|
        0 <= i < j < slots.len() ==> (#[trigger] slots[i]) < (#[trigger] slots[j])
}

/// There are no more slots than numbers for them.
pub(crate) proof fn lemma_few_slots(slots: Seq<u16>)
    requires
        sorted(slots),
    ensures
        slots.len() <= 0x1_0000,
{
    if slots.len() > 0 {
        lemma_at_least(slots, slots.len() - 1);
    }
}

proof fn lemma_at_least(slots: Seq<u16>, i: int)
    requires
        sorted(slots),
        0 <= i < slots.len(),
    ensures
        slots[i] >= i,
    decreases i,
{
    if i > 0 {
        lemma_at_least(slots, i - 1);
        assert(slots[i - 1] < slots[i]);
    }
}

/// A set of frame slots, kept in ascending order. The dense index of a slot is its
/// place in that order.
#[derive(Debug)]
pub struct SlotSet {
    slots: Vec<u16>,
}

impl View for SlotSet {
    type V = Seq<u16>;

    closed spec fn view(&self) -> Seq<u16> {
        self.slots@
    }
}

impl SlotSet {
    /// Whether the slots are in order, none twice.
    pub open spec fn wf(&self) -> bool {
        sorted(self@)
    }

    /// The empty set.
    pub fn new() -> (set: SlotSet)
        ensures
            set.wf(),
            set@ == Seq::<u16>::empty(),
    {
        SlotSet { slots: Vec::new() }
    }

    /// The number of slots.
    pub fn len(&self) -> (n: usize)
        ensures
            n == self@.len(),
    {
        self.slots.len()
    }

    /// The number of slots below `slot`.
    fn rank(&self, slot: u16) -> (n: usize)
        requires
            self.wf(),
        ensures
            n <= self@.len(),
            forall|i: int| 0 <= i < n ==> (#[trigger] self@[i]) < slot,
            forall|i: int| n <= i < self@.len() ==> (#[trigger] self@[i]) >= slot,
    {
        let mut low: usize = 0;
        let mut high: usize = self.slots.len();
        while low < high
            invariant
                self.wf(),
                low <= high <= self@.len(),
                forall|i: int| 0 <= i < low ==> (#[trigger] self@[i]) < slot,
                forall|i: int| high <= i < self@.len() ==> (#[trigger] self@[i]) >= slot,
            decreases high - low,
        {
            let mid: usize = low + (high - low) / 2;
            let there: u16 = self.slots[mid];
            assert(self@[mid as int] == there);
            if there < slot {
                low = mid + 1;
            } else {
                high = mid;
            }
        }
        low
    }

    /// The dense index of a slot of the set.
    pub fn index_of(&self, slot: u16) -> (index: usize)
        requires
            self.wf(),
            self@.contains(slot),
        ensures
            index < self@.len(),
            self@[index as int] == slot,
    {
        self.rank(slot)
    }

    /// Adds a slot.
    pub fn insert(&mut self, slot: u16)
        requires
            old(self).wf(),
        ensures
            final(self).wf(),
            forall|s: u16| #[trigger]
                final(self)@.contains(s) <==> s == slot || old(self)@.contains(s),
    {
        let n: usize = self.rank(slot);
        let ghost before = self@;
        if n < self.slots.len() && self.slots[n] == slot {
            assert(self@[n as int] == slot);
            return;
        }
        self.slots.insert(n, slot);
        proof {
            assert(self@ == before.insert(n as int, slot));
            assert forall|s: u16| #[trigger] self@.contains(s) <==> s == slot || before.contains(
                s,
            ) by {
                if before.contains(s) {
                    let i = choose|i: int| 0 <= i < before.len() && before[i] == s;
                    if i < n {
                        assert(self@[i] == s);
                    } else {
                        assert(self@[i + 1] == s);
                    }
                }
                if s == slot {
                    assert(self@[n as int] == s);
                }
                if self@.contains(s) && s != slot {
                    let i = choose|i: int| 0 <= i < self@.len() && self@[i] == s;
                    if i < n {
                        assert(before[i] == s);
                    } else {
                        assert(before[i - 1] == s);
                    }
                }
            }
        }
    }

    /// Adds the slots `head .. head + len`, as far as there are slots of these numbers.
    pub fn insert_run(&mut self, head: u16, len: u16)
        requires
            old(self).wf(),
        ensures
            final(self).wf(),
            forall|s: u16| #[trigger]
                final(self)@.contains(s) <==> head <= s < head + len || old(self)@.contains(s),
    {
        let ghost before = self@;
        let mut off: u16 = 0;
        while off < len
            invariant
                before == old(self)@,
                off <= len,
                head + off <= u16::MAX + 1,
                self.wf(),
                forall|s: u16| #[trigger]
                    self@.contains(s) <==> head <= s < head + off || before.contains(s),
            decreases len - off,
        {
            if off > u16::MAX - head {
                return;
            }
            self.insert(head + off);
            off = off + 1;
        }
    }

    /// The slots in ascending order.
    pub fn into_vec(self) -> (slots: Vec<u16>)
        ensures
            slots@ == self@,
    {
        self.slots
    }
}

} // verus!
