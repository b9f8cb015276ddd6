use vstd::prelude::*;

verus! {

/// The first free slot from `k` on.
pub open spec fn first_free_from<T>(slots: Seq<Option<T>>, k: int) -> Option<int>
    decreases slots.len() - k,
{
    if k < 0 || k >= slots.len() {
        None
    } else if slots[k] is None {
        Some(k)
    } else {
        first_free_from(slots, k + 1)
    }
}

/// The first free slot.
pub open spec fn first_free<T>(slots: Seq<Option<T>>) -> Option<int> {
    first_free_from(slots, 0)
}

/// The slots after adding `item`: it takes the first free slot, or a new
/// slot at the end when none is free.
pub open spec fn slots_after_add<T>(slots: Seq<Option<T>>, item: T) -> Seq<Option<T>> {
    match first_free(slots) {
        Some(k) => slots.update(k, Some(item)),
        None => slots.push(Some(item)),
    }
}

/// Adds an item to a group of slots (laser shots, bombs): it replaces the
/// first free (expired) slot, or is appended when none is free.
pub fn add_to_slots<T>(slots: &mut Vec<Option<T>>, item: T)
    ensures
        final(slots)@ == slots_after_add(old(slots)@, item),
{
    let mut k: usize = 0;
    while k < slots.len()
        invariant
            slots@ == old(slots)@,
            k <= slots@.len(),
            first_free(slots@) == first_free_from(slots@, k as int),
        decreases slots@.len() - k,
    {
        if slots[k].is_none() {
            slots.set(k, Some(item));
            return;
        }
        k = k + 1;
    }
    slots.push(Some(item));
}

/// Adding never drops or moves an item that is there: every occupied slot
/// keeps its item, and the group grows by at most one slot.
pub proof fn lemma_add_keeps_items<T>(slots: Seq<Option<T>>, item: T)
    ensures
        forall|i: int| 0 <= i < slots.len() && slots[i] is Some ==> #[trigger] slots_after_add(slots, item)[i] == slots[i],
        slots_after_add(slots, item).len() <= slots.len() + 1,
        slots_after_add(slots, item).contains(Some(item)),
{
    lemma_first_free_is_free(slots, 0);
    match first_free(slots) {
        Some(k) => {
            assert(slots_after_add(slots, item)[k] == Some(item));
        },
        None => {
            assert(slots_after_add(slots, item)[slots.len() as int] == Some(item));
        },
    }
}

/// The slot that `first_free_from` finds is free and not before `k`; when it
/// finds none, no slot from `k` on is free.
pub proof fn lemma_first_free_is_free<T>(slots: Seq<Option<T>>, k: int)
    requires
        0 <= k,
    ensures
        first_free_from(slots, k) matches Some(j) ==> k <= j < slots.len() && slots[j] is None,
        first_free_from(slots, k) is None ==> forall|j: int| k <= j < slots.len() ==> slots[j] is Some,
    decreases slots.len() - k,
{
    if k < slots.len() && slots[k] is Some {
        lemma_first_free_is_free(slots, k + 1);
    }
}

/// Adding never uses a new slot while one is free.
pub proof fn lemma_add_reuses_free_slot<T>(slots: Seq<Option<T>>, item: T, free: int)
    requires
        0 <= free < slots.len(),
        slots[free] is None,
    ensures
        slots_after_add(slots, item).len() == slots.len(),
{
    lemma_first_free_is_free(slots, 0);
}

} // verus!
