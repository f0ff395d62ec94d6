//! A statically sized slab allocator for fixed-size typed slots.
//!
//! All `SLOT_COUNT` slots exist from the start; a free list, kept as a stack
//! threaded through `free_next`, tracks which are available. `acquire` pops
//! the top of the stack and `release` pushes a slot back. A slot's place in
//! the region is its index times `SLOT_SIZE` bytes from the slab's base.

use vstd::prelude::*;

verus! {

/// Marks the end of the free list.
pub const SENTINEL: usize = usize::MAX;

/// A slab of `SLOT_COUNT` slots of `SLOT_SIZE` bytes each.
pub struct SlabAllocator<const SLOT_SIZE: usize, const SLOT_COUNT: usize> {
    free_head: usize,
    free_next: Vec<usize>,
    allocated: usize,
    free: Ghost<Seq<usize>>,
    in_use: Ghost<Set<usize>>,
}

/// Slab A: goal contract slots, 256 of 3072 bytes.
pub type GoalContractSlab = SlabAllocator<3072, 256>;

/// Slab B: goal state slots, 512 of 1024 bytes.
pub type GoalStateSlab = SlabAllocator<1024, 512>;

/// Slab C: observation snapshot slots, 150 of 320 bytes.
pub type ObservationSlab = SlabAllocator<320, 150>;

/// Slab D: atomic counter slots, 1024 of 8 bytes.
pub type AtomicCounterSlab = SlabAllocator<8, 1024>;

impl<const SLOT_SIZE: usize, const SLOT_COUNT: usize> SlabAllocator<SLOT_SIZE, SLOT_COUNT> {
    /// The free slots, top of the stack first: the next `acquire` hands out
    /// the first of them.
    pub closed spec fn free_list(&self) -> Seq<usize> {
        self.free@
    }

    /// The slots handed out and not yet released.
    pub closed spec fn in_use(&self) -> Set<usize> {
        self.in_use@
    }

    /// Well-formedness: the linked free list spells out `free_list`, whose
    /// slots are distinct, and every slot is either free or in use.
    pub closed spec fn wf(&self) -> bool {
        let fl = self.free@;
        &&& SLOT_COUNT < usize::MAX
        &&& SLOT_SIZE * SLOT_COUNT <= usize::MAX
        &&& self.free_next@.len() == SLOT_COUNT
        &&& fl.no_duplicates()
        &&& forall|i: int| 0 <= i < fl.len() ==> #[trigger] fl[i] < SLOT_COUNT
        &&& self.free_head == if fl.len() == 0 { SENTINEL } else { fl[0] }
        &&& forall|i: int|
            0 <= i < fl.len() ==> #[trigger] self.free_next@[fl[i] as int] == if i + 1 < fl.len() {
                fl[i + 1]
            } else {
                SENTINEL
            }
        &&& self.in_use@.finite()
        &&& forall|s: usize| #[trigger]
            self.in_use@.contains(s) <==> (s < SLOT_COUNT && !fl.contains(s))
        &&& fl.len() + self.in_use@.len() == SLOT_COUNT
        &&& self.allocated == self.in_use@.len()
    }

    /// Creates the slab with every slot free, in index order.
    pub fn init() -> (r: Self)
        requires
            SLOT_COUNT < usize::MAX,
            SLOT_SIZE * SLOT_COUNT <= usize::MAX,
        ensures
            r.wf(),
            r.free_list() == Seq::new(SLOT_COUNT as nat, |i: int| i as usize),
            r.in_use() == Set::<usize>::empty(),
    {
        let mut free_next: Vec<usize> = Vec::with_capacity(SLOT_COUNT);
        let mut i: usize = 0;
        while i < SLOT_COUNT
            invariant
                i <= SLOT_COUNT,
                SLOT_COUNT < usize::MAX,
                free_next@.len() == i,
                forall|j: int|
                    0 <= j < i ==> #[trigger] free_next@[j] == if j + 1 < SLOT_COUNT {
                        (j + 1) as usize
                    } else {
                        SENTINEL
                    },
            decreases SLOT_COUNT - i,
        {
            free_next.push(if i + 1 < SLOT_COUNT { i + 1 } else { SENTINEL });
            i = i + 1;
        }
        let ghost fl = Seq::new(SLOT_COUNT as nat, |i: int| i as usize);
        let r = SlabAllocator {
            free_head: if SLOT_COUNT > 0 { 0 } else { SENTINEL },
            free_next,
            allocated: 0,
            free: Ghost(fl),
            in_use: Ghost(Set::empty()),
        };
        proof {
            assert forall|s: usize| #[trigger] r.in_use@.contains(s) <==> (s < SLOT_COUNT
                && !fl.contains(s)) by {
                if s < SLOT_COUNT {
                    assert(fl[s as int] == s);
                }
            }
        }
        r
    }

    /// Takes the slot on top of the free list and returns its index and its
    /// byte offset from the slab's base; `None` when every slot is in use.
    pub fn acquire(&mut self) -> (r: Option<(usize, usize)>)
        requires
            old(self).wf(),
        ensures
            final(self).wf(),
            old(self).free_list().len() == 0 ==> {
                &&& r is None
                &&& old(self).in_use().len() == SLOT_COUNT
                &&& final(self).free_list() == old(self).free_list()
                &&& final(self).in_use() == old(self).in_use()
            },
            old(self).free_list().len() > 0 ==> {
                let s = old(self).free_list()[0];
                &&& r == Some((s, (s * SLOT_SIZE) as usize))
                &&& !old(self).in_use().contains(s)
                &&& final(self).free_list() == old(self).free_list().drop_first()
                &&& final(self).in_use() == old(self).in_use().insert(s)
            },
    {
        let head = self.free_head;
        if head == SENTINEL {
            proof {
                self.lemma_free_and_in_use_partition(0);
            }
            return None;
        }
        let ghost fl = self.free@;
        proof {
            assert(fl.len() > 0);
            assert(fl[0] < SLOT_COUNT);
        }
        let next = self.free_next[head];
        self.free_head = next;
        proof {
            assert(!self.in_use@.contains(head));
            self.free@ = fl.drop_first();
            self.in_use@ = self.in_use@.insert(head);
            assert forall|i: int| 0 <= i < self.free@.len() implies
                #[trigger] self.free_next@[self.free@[i] as int] == if i + 1 < self.free@.len() {
                self.free@[i + 1]
            } else {
                SENTINEL
            } by {
                assert(self.free@[i] == fl[i + 1]);
            }
            assert forall|s: usize| #[trigger] self.in_use@.contains(s) <==> (s < SLOT_COUNT
                && !self.free@.contains(s)) by {
                if s == head {
                    if self.free@.contains(s) {
                        let k = choose|k: int| 0 <= k < self.free@.len() && self.free@[k] == s;
                        assert(fl[k + 1] == fl[0]);
                    }
                } else if fl.contains(s) {
                    let k = choose|k: int| 0 <= k < fl.len() && fl[k] == s;
                    assert(self.free@[k - 1] == s);
                } else if self.free@.contains(s) {
                    let k = choose|k: int| 0 <= k < self.free@.len() && self.free@[k] == s;
                    assert(fl[k + 1] == s);
                }
            }
        }
        self.allocated = self.allocated + 1;
        proof {
            assert(head * SLOT_SIZE <= SLOT_SIZE * SLOT_COUNT) by (nonlinear_arith)
                requires
                    head < SLOT_COUNT,
            ;
        }
        Some((head, head * SLOT_SIZE))
    }

    /// Puts slot `index`, which must be in use, back on top of the free list.
    pub fn release(&mut self, index: usize)
        requires
            old(self).wf(),
            old(self).in_use().contains(index),
        ensures
            final(self).wf(),
            final(self).free_list() == seq![index] + old(self).free_list(),
            final(self).in_use() == old(self).in_use().remove(index),
    {
        let ghost fl = self.free@;
        proof {
            assert(index < SLOT_COUNT);
            assert(!fl.contains(index));
        }
        let head = self.free_head;
        self.free_next.set(index, head);
        self.free_head = index;
        proof {
            let nfl = seq![index] + fl;
            self.free@ = nfl;
            self.in_use@ = self.in_use@.remove(index);
            assert forall|i: int| 0 <= i < nfl.len() implies #[trigger] nfl[i] < SLOT_COUNT by {
                if i > 0 {
                    assert(nfl[i] == fl[i - 1]);
                }
            }
            assert forall|i: int, j: int| 0 <= i < j < nfl.len() implies nfl[i] != nfl[j] by {
                if i == 0 {
                    assert(nfl[j] == fl[j - 1]);
                }
            }
            assert forall|i: int| 0 <= i < nfl.len() implies
                #[trigger] self.free_next@[nfl[i] as int] == if i + 1 < nfl.len() {
                nfl[i + 1]
            } else {
                SENTINEL
            } by {
                if i > 0 {
                    assert(nfl[i] == fl[i - 1]);
                    assert(fl[i - 1] != index);
                }
            }
            assert forall|s: usize| #[trigger] self.in_use@.contains(s) <==> (s < SLOT_COUNT
                && !nfl.contains(s)) by {
                if s != index {
                    if fl.contains(s) {
                        let k = choose|k: int| 0 <= k < fl.len() && fl[k] == s;
                        assert(nfl[k + 1] == s);
                    }
                    if nfl.contains(s) {
                        let k = choose|k: int| 0 <= k < nfl.len() && nfl[k] == s;
                        assert(fl[k - 1] == s);
                    }
                } else {
                    assert(nfl[0] == index);
                }
            }
        }
        self.allocated = self.allocated - 1;
    }

    /// The number of slots in use.
    pub fn allocated_count(&self) -> (r: usize)
        requires
            self.wf(),
        ensures
            r == self.in_use().len(),
    {
        self.allocated
    }

    /// The number of free slots.
    pub fn free_count(&self) -> (r: usize)
        requires
            self.wf(),
        ensures
            r == self.free_list().len(),
            r + self.in_use().len() == SLOT_COUNT,
    {
        SLOT_COUNT - self.allocated
    }

    /// The byte offset of slot `index` from the slab's base. Arithmetic only:
    /// it neither acquires nor releases.
    pub fn slot_ptr(&self, index: usize) -> (r: usize)
        requires
            self.wf(),
            index < SLOT_COUNT,
        ensures
            r == index * SLOT_SIZE,
    {
        proof {
            assert(index * SLOT_SIZE <= SLOT_SIZE * SLOT_COUNT) by (nonlinear_arith)
                requires
                    index < SLOT_COUNT,
            ;
        }
        index * SLOT_SIZE
    }

    /// No slot is ever both free and in use, and the two together are all
    /// the slots: so `acquire` never hands out a slot that is in use.
    pub proof fn lemma_free_and_in_use_partition(&self, s: usize)
        requires
            self.wf(),
        ensures
            self.in_use().contains(s) ==> !self.free_list().contains(s),
            s < SLOT_COUNT ==> (self.in_use().contains(s) || self.free_list().contains(s)),
            self.free_list().len() + self.in_use().len() == SLOT_COUNT,
    {
    }
}

/// One call on a slab allocator, as seen in its set of slots in use.
pub enum SlabStep {
    /// `acquire` handed out this slot.
    Acquired(usize),
    /// `acquire` found no free slot.
    Refused,
    /// `release` gave back this slot.
    Released(usize),
}

/// `step` takes the slots in use from `before` to `after`, as the contracts
/// of `acquire` and `release` say.
pub open spec fn slab_step(before: Set<usize>, step: SlabStep, after: Set<usize>) -> bool {
    match step {
        SlabStep::Acquired(s) => !before.contains(s) && after == before.insert(s),
        SlabStep::Refused => after == before,
        SlabStep::Released(s) => before.contains(s) && after == before.remove(s),
    }
}

/// No slot is handed out twice without being released in between: in any
/// history of calls, two hand-outs of the same slot have a release of it
/// between them. `states` are the slots in use before and after each call.
pub proof fn lemma_no_double_hand_out(
    states: Seq<Set<usize>>,
    steps: Seq<SlabStep>,
    j: int,
    k: int,
    s: usize,
)
    requires
        states.len() == steps.len() + 1,
        forall|i: int| 0 <= i < steps.len() ==> slab_step(states[i], #[trigger] steps[i], states[i + 1]),
        0 <= j < k < steps.len(),
        steps[j] == SlabStep::Acquired(s),
        steps[k] == SlabStep::Acquired(s),
    ensures
        exists|m: int| j < m < k && #[trigger] steps[m] == SlabStep::Released(s),
{
    if !(exists|m: int| j < m < k && #[trigger] steps[m] == SlabStep::Released(s)) {
        lemma_held_until_released(states, steps, j, k, s);
        assert(slab_step(states[k], steps[k], states[k + 1]));
    }
}

proof fn lemma_held_until_released(states: Seq<Set<usize>>, steps: Seq<SlabStep>, j: int, m: int, s: usize)
    requires
        states.len() == steps.len() + 1,
        forall|i: int| 0 <= i < steps.len() ==> slab_step(states[i], #[trigger] steps[i], states[i + 1]),
        0 <= j < m < states.len(),
        steps[j] == SlabStep::Acquired(s),
        forall|i: int| j < i < m ==> #[trigger] steps[i] != SlabStep::Released(s),
    ensures
        states[m].contains(s),
    decreases m - j,
{
    if m == j + 1 {
        assert(slab_step(states[j], steps[j], states[j + 1]));
    } else {
        lemma_held_until_released(states, steps, j, m - 1, s);
        assert(slab_step(states[m - 1], steps[m - 1], states[m]));
        assert(steps[m - 1] != SlabStep::Released(s));
    }
}

} // verus!
