//! Sparse component storage: one growable array of optional values per
//! component type, indexed by entity id. Absence is an empty slot.
use vstd::prelude::*;

verus! {

/// `s` extended with empty slots until it has at least `n` of them.
pub open spec fn grown<X>(s: Seq<Option<X>>, n: int) -> Seq<Option<X>> {
    if s.len() >= n {
        s
    } else {
        s + Seq::new((n - s.len()) as nat, |i: int| None)
    }
}

/// `s` with slot `i` emptied, when it exists.
pub open spec fn cleared<X>(s: Seq<Option<X>>, i: int) -> Seq<Option<X>> {
    if 0 <= i < s.len() {
        s.update(i, None)
    } else {
        s
    }
}

/// `s` grown to cover slot `i`, with `value` stored there.
pub open spec fn stored<X>(s: Seq<Option<X>>, i: int, value: X) -> Seq<Option<X>> {
    grown(s, i + 1).update(i, Some(value))
}

/// A slot emptied on despawn reads as missing when its id is handed out
/// again and the storage is grown to cover it, whatever it held before.
pub proof fn lemma_respawned_slot_is_empty<X>(s: Seq<Option<X>>, id: int)
    requires
        0 <= id,
    ensures
        grown(cleared(s, id), id + 1).len() > id,
        grown(cleared(s, id), id + 1)[id] is None,
{
}

/// Grows `slots` with empty slots so that it covers slot `i`.
pub fn ensure_covers<X>(slots: &mut Vec<Option<X>>, i: usize)
    ensures
        final(slots)@ == grown(old(slots)@, i + 1),
{
    let ghost start = slots@;
    while slots.len() <= i
        invariant
            start.len() <= slots@.len(),
            slots@.len() <= i + 1 || slots@.len() == start.len(),
            slots@ == start + Seq::new((slots@.len() - start.len()) as nat, |k: int| None::<X>),
        decreases i + 1 - slots@.len(),
    {
        slots.push(None);
        assert(slots@ =~= start + Seq::new((slots@.len() - start.len()) as nat, |k: int| None::<X>));
    }
    assert(start.len() >= i + 1 ==> slots@ =~= start);
    assert(start.len() < i + 1 ==> slots@ =~= start + Seq::new((i + 1 - start.len()) as nat, |k: int| None::<X>));
}

/// Empties slot `i` if it exists; a missing slot is left alone.
pub fn clear_slot<X>(slots: &mut Vec<Option<X>>, i: usize)
    ensures
        final(slots)@ == cleared(old(slots)@, i as int),
{
    if i < slots.len() {
        slots.set(i, None);
    }
}

/// Stores `value` in slot `i`, growing the storage first if needed.
pub fn store<X>(slots: &mut Vec<Option<X>>, i: usize, value: X)
    ensures
        final(slots)@ == stored(old(slots)@, i as int, value),
{
    ensure_covers(slots, i);
    slots.set(i, Some(value));
}

/// The value held in slot `i`, which must be occupied.
pub fn slot_value<X>(slots: &Vec<Option<X>>, i: usize) -> (r: &X)
    requires
        i < slots@.len(),
        slots@[i as int] is Some,
    ensures
        slots@[i as int] == Some(*r),
{
    slots[i].as_ref().unwrap()
}

/// Mutable access to the value in slot `i`, which must be occupied; the
/// slot stays occupied and ends up holding what the borrow left there.
pub fn slot_value_mut<X>(slots: &mut Vec<Option<X>>, i: usize) -> (r: &mut X)
    requires
        i < old(slots)@.len(),
        old(slots)@[i as int] is Some,
    ensures
        old(slots)@[i as int] == Some(*r),
        final(slots)@ == old(slots)@.update(i as int, Some(*final(r))),
{
    let slot: &mut Option<X> = &mut slots[i];
    slot.as_mut().unwrap()
}

} // verus!
