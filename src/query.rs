//! Paired iteration over two component storages.
use vstd::prelude::*;
use crate::entity::EntityId;

verus! {

/// Slot `i` holds a value in both storages, below the length of the shorter one.
pub open spec fn is_pair<A, B>(a: Seq<Option<A>>, b: Seq<Option<B>>, i: int) -> bool {
    0 <= i < a.len() && i < b.len() && a[i] is Some && b[i] is Some
}

/// The number of slots that paired iteration may visit.
pub open spec fn pair_bound<A, B>(a: Seq<Option<A>>, b: Seq<Option<B>>) -> int {
    if a.len() < b.len() { a.len() as int } else { b.len() as int }
}

/// Walks two storages side by side in ascending index order, yielding the
/// entities whose slots are occupied in both.
pub struct QueryIter<'a, A, B> {
    index: usize,
    a: &'a Vec<Option<A>>,
    b: &'a Vec<Option<B>>,
}

impl<'a, A, B> QueryIter<'a, A, B> {
    /// The first slot not yet visited.
    pub closed spec fn position(&self) -> int {
        self.index as int
    }

    pub closed spec fn left(&self) -> Seq<Option<A>> {
        self.a@
    }

    pub closed spec fn right(&self) -> Seq<Option<B>> {
        self.b@
    }

    pub open spec fn wf(&self) -> bool {
        &&& pair_bound(self.left(), self.right()) <= u32::MAX + 1
        &&& 0 <= self.position() <= pair_bound(self.left(), self.right())
    }

    pub fn new(a: &'a Vec<Option<A>>, b: &'a Vec<Option<B>>) -> (r: QueryIter<'a, A, B>)
        requires
            pair_bound(a@, b@) <= u32::MAX + 1,
        ensures
            r.wf(),
            r.left() == a@,
            r.right() == b@,
            r.position() == 0,
    {
        QueryIter { index: 0, a, b }
    }

    /// The next paired slot at or after the current position, with both values.
    pub fn next(&mut self) -> (r: Option<(EntityId, &'a A, &'a B)>)
        requires
            old(self).wf(),
        ensures
            final(self).wf(),
            final(self).left() == old(self).left(),
            final(self).right() == old(self).right(),
            final(self).position() >= old(self).position(),
            forall|j: int|
                old(self).position() <= j < final(self).position() && !(r is Some && j == r->Some_0.0.0)
                    ==> !is_pair(old(self).left(), old(self).right(), j),
            match r {
                None => final(self).position() >= pair_bound(old(self).left(), old(self).right()),
                Some((id, x, y)) => {
                    &&& is_pair(old(self).left(), old(self).right(), id.0 as int)
                    &&& id.0 >= old(self).position()
                    &&& final(self).position() == id.0 + 1
                    &&& old(self).left()[id.0 as int] == Some(*x)
                    &&& old(self).right()[id.0 as int] == Some(*y)
                },
            },
    {
        let a: &'a Vec<Option<A>> = self.a;
        let b: &'a Vec<Option<B>> = self.b;
        let bound: usize = if a.len() < b.len() { a.len() } else { b.len() };
        while self.index < bound
            invariant
                a@ == old(self).left(),
                b@ == old(self).right(),
                self.a@ == a@,
                self.b@ == b@,
                bound == pair_bound(a@, b@),
                bound <= u32::MAX + 1,
                old(self).index <= self.index <= bound,
                forall|j: int| old(self).index <= j < self.index ==> !is_pair(a@, b@, j),
            decreases bound - self.index,
        {
            let idx: usize = self.index;
            self.index = self.index + 1;
            let sa: &'a Option<A> = &a[idx];
            let sb: &'a Option<B> = &b[idx];
            match (sa, sb) {
                (Some(x), Some(y)) => {
                    return Some((EntityId(idx as u32), x, y));
                },
                _ => {},
            }
        }
        None
    }
}

/// The ids of the slots occupied in both storages, in ascending order.
pub fn matching_ids<A, B>(a: &Vec<Option<A>>, b: &Vec<Option<B>>) -> (r: Vec<EntityId>)
    requires
        pair_bound(a@, b@) <= u32::MAX + 1,
    ensures
        forall|k: int| 0 <= k < r@.len() ==> is_pair(a@, b@, r@[k].0 as int),
        forall|k: int, l: int| 0 <= k < l < r@.len() ==> r@[k].0 < r@[l].0,
        forall|i: int| is_pair(a@, b@, i) ==> exists|k: int| 0 <= k < r@.len() && r@[k].0 == i,
{
    let mut it = QueryIter::new(a, b);
    let mut r: Vec<EntityId> = Vec::new();
    loop
        invariant
            it.wf(),
            it.left() == a@,
            it.right() == b@,
            forall|k: int| 0 <= k < r@.len() ==> is_pair(a@, b@, r@[k].0 as int),
            forall|k: int| 0 <= k < r@.len() ==> r@[k].0 < it.position(),
            forall|k: int, l: int| 0 <= k < l < r@.len() ==> r@[k].0 < r@[l].0,
            forall|i: int|
                is_pair(a@, b@, i) && i < it.position() ==> exists|k: int| 0 <= k < r@.len() && r@[k].0 == i,
        decreases pair_bound(a@, b@) - it.position(),
    {
        let before: Ghost<int> = Ghost(it.position());
        let prev: Ghost<Seq<EntityId>> = Ghost(r@);
        match it.next() {
            None => {
                assert forall|i: int| is_pair(a@, b@, i) implies exists|k: int| 0 <= k < r@.len() && r@[k].0 == i by {
                    if i >= before@ {
                        assert(!is_pair(a@, b@, i));
                    }
                };
                return r;
            },
            Some((id, _x, _y)) => {
                r.push(id);
                assert forall|i: int|
                    is_pair(a@, b@, i) && i < it.position() implies exists|k: int| 0 <= k < r@.len() && r@[k].0 == i by {
                    if i < before@ {
                        let k = choose|k: int| 0 <= k < prev@.len() && prev@[k].0 == i;
                        assert(r@[k] == prev@[k]);
                    } else if i == id.0 {
                        assert(r@[r@.len() - 1] == id);
                    }
                };
            },
        }
    }
}

} // verus!
