//! Entity identifiers and the allocator that issues them.
use vstd::prelude::*;

verus! {

/// An opaque handle naming one entity; unique among live entities.
#[derive(Clone, Copy, Debug, PartialEq, Eq, Structural, Hash)]
pub struct EntityId(pub u32);

/// The abstract state of an allocator: the next id never issued before, and
/// the stack of released ids (its top is the last element).
pub struct AllocatorModel {
    pub next: u32,
    pub free: Seq<u32>,
}

impl AllocatorModel {
    /// The state of a newly created allocator.
    pub open spec fn fresh() -> AllocatorModel {
        AllocatorModel { next: 0, free: Seq::empty() }
    }

    /// One allocation: the most recently freed id if there is one, else the
    /// counter, which then grows (saturating at the largest `u32`).
    pub open spec fn alloc_step(self) -> (AllocatorModel, u32) {
        if self.free.len() > 0 {
            (AllocatorModel { next: self.next, free: self.free.drop_last() }, self.free.last())
        } else {
            let next = if self.next < u32::MAX { (self.next + 1) as u32 } else { self.next };
            (AllocatorModel { next, free: self.free }, self.next)
        }
    }

    /// Releasing an id pushes it on the free stack, unchecked.
    pub open spec fn free_step(self, id: u32) -> AllocatorModel {
        AllocatorModel { next: self.next, free: self.free.push(id) }
    }

    /// `n` allocations in a row: the final state and the ids handed out, in order.
    pub open spec fn alloc_many(self, n: nat) -> (AllocatorModel, Seq<u32>)
        decreases n,
    {
        if n == 0 {
            (self, Seq::empty())
        } else {
            let (mid, ids) = self.alloc_many((n - 1) as nat);
            let (last, id) = mid.alloc_step();
            (last, ids.push(id))
        }
    }
}

/// Issues entity ids, reusing released ones last-in first-out.
pub struct EntityAllocator {
    next: u32,
    free: Vec<u32>,
}

impl View for EntityAllocator {
    type V = AllocatorModel;

    closed spec fn view(&self) -> AllocatorModel {
        AllocatorModel { next: self.next, free: self.free@ }
    }
}

impl EntityAllocator {
    pub fn new() -> (r: EntityAllocator)
        ensures
            r@ == AllocatorModel::fresh(),
    {
        let r = EntityAllocator { next: 0, free: Vec::new() };
        assert(r@.free =~= Seq::<u32>::empty());
        r
    }

    /// Pops the most recently freed id, or mints the counter's value.
    pub fn allocate(&mut self) -> (r: EntityId)
        ensures
            (final(self)@, r.0) == old(self)@.alloc_step(),
    {
        match self.free.pop() {
            Some(id) => EntityId(id),
            None => {
                let id = self.next;
                self.next = self.next.saturating_add(1);
                EntityId(id)
            },
        }
    }

    /// Returns an id to the allocator; a double free is not detected.
    pub fn free(&mut self, entity: EntityId)
        ensures
            final(self)@ == old(self)@.free_step(entity.0),
    {
        self.free.push(entity.0);
    }
}

/// With no frees, `n` allocations from a fresh allocator yield `0, 1, ..., n - 1`
/// in that order, and leave the counter at `n`.
pub proof fn lemma_fresh_allocations_are_sequential(n: nat)
    requires
        n <= u32::MAX,
    ensures
        AllocatorModel::fresh().alloc_many(n).0 == (AllocatorModel { next: n as u32, free: Seq::empty() }),
        AllocatorModel::fresh().alloc_many(n).1.len() == n,
        forall|i: int| 0 <= i < n ==> AllocatorModel::fresh().alloc_many(n).1[i] == i,
    decreases n,
{
    if n > 0 {
        lemma_fresh_allocations_are_sequential((n - 1) as nat);
    }
}

/// After an id is freed, the next allocation returns exactly that id, and the
/// counter of never-issued ids does not move.
pub proof fn lemma_freed_id_reused_first(m: AllocatorModel, k: u32)
    ensures
        m.free_step(k).alloc_step().1 == k,
        m.free_step(k).alloc_step().0 == m,
{
    assert(m.free_step(k).free.drop_last() =~= m.free);
}

} // verus!
