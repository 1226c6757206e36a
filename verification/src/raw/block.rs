//! Block primitives: storage for a given number of elements, sized with
//! overflow-checked arithmetic.
//!
//! A block is a `Vec<Option<T>>` with one entry per slot. `None` is a slot that
//! nothing has been written to. The block without slots stands for "no
//! allocation": it owns no heap memory.

use vstd::layout::size_of;
use vstd::prelude::*;

verus! {

/// `capacity` slots, all vacant.
pub open spec fn vacant<T>(capacity: nat) -> Seq<Option<T>> {
    Seq::new(capacity, |i: int| None)
}

/// The slots of a block after a resize to `capacity`: the slots that both sizes
/// share keep what they held, the slots that a growth adds are vacant.
pub open spec fn resized<T>(slots: Seq<Option<T>>, capacity: nat) -> Seq<Option<T>> {
    Seq::new(
        capacity,
        |i: int|
            if i < slots.len() {
                slots[i]
            } else {
                None
            },
    )
}

/// The byte size of `capacity` elements of `T` is representable.
pub open spec fn fits<T>(capacity: nat) -> bool {
    capacity * size_of::<T>() <= usize::MAX
}

/// The block that stands for "no allocation". It has no slots and owns no
/// memory.
pub fn empty<T>() -> (block: Vec<Option<T>>)
    ensures
        block@ == Seq::<Option<T>>::empty(),
{
    Vec::new()
}

/// The byte size of `capacity` elements of `T`.
///
/// The product must be representable; `checked_allocation_size` tests that.
pub fn allocation_size<T>(capacity: usize) -> (size: usize)
    requires
        fits::<T>(capacity as nat),
    ensures
        size == capacity * size_of::<T>(),
{
    capacity * core::mem::size_of::<T>()
}

/// The byte size of `capacity` elements of `T`, or `None` exactly when that
/// size is not representable.
pub fn checked_allocation_size<T>(capacity: usize) -> (size: Option<usize>)
    ensures
        fits::<T>(capacity as nat) <==> size is Some,
        size is Some ==> size->0 == capacity * size_of::<T>(),
{
    capacity.checked_mul(core::mem::size_of::<T>())
}

/// A fresh block of `capacity` vacant slots.
///
/// The capacity is not zero and `T` occupies storage: the caller deals with
/// the other cases without a block.
pub fn allocate<T>(capacity: usize) -> (block: Vec<Option<T>>)
    requires
        capacity != 0,
        size_of::<T>() != 0,
        fits::<T>(capacity as nat),
    ensures
        block@ == vacant::<T>(capacity as nat),
{
    let mut block: Vec<Option<T>> = Vec::with_capacity(capacity);
    fill(&mut block, capacity);
    assert(block@ =~= vacant::<T>(capacity as nat));
    block
}

/// Resizes `old`, a block of `old_capacity` slots, to `new_capacity` slots.
///
/// The slots below both capacities keep what they held. A growth adds vacant
/// slots at the end; a shrink gives up the slots from `new_capacity` on.
pub fn reallocate<T>(old: Vec<Option<T>>, old_capacity: usize, new_capacity: usize) -> (block: Vec<
    Option<T>,
>)
    requires
        old@.len() == old_capacity,
        old_capacity != 0,
        new_capacity != 0,
        size_of::<T>() != 0,
        fits::<T>(old_capacity as nat),
        fits::<T>(new_capacity as nat),
    ensures
        block@ == resized(old@, new_capacity as nat),
{
    let mut block = old;
    if new_capacity < old_capacity {
        block.truncate(new_capacity);
    } else {
        block.reserve(new_capacity - old_capacity);
        fill(&mut block, new_capacity);
    }
    assert(block@ =~= resized(old@, new_capacity as nat));
    block
}

/// Releases `old`, a block of `capacity` slots: what its slots hold is
/// dropped, and its memory goes back when the block leaves scope here.
pub fn deallocate<T>(old: Vec<Option<T>>, capacity: usize)
    requires
        old@.len() == capacity,
        capacity != 0,
        size_of::<T>() != 0,
        fits::<T>(capacity as nat),
{
    let mut block = old;
    block.clear();
}

/// Appends vacant slots to `block` until it has `capacity` of them.
fn fill<T>(block: &mut Vec<Option<T>>, capacity: usize)
    requires
        old(block)@.len() <= capacity,
    ensures
        final(block)@ == resized(old(block)@, capacity as nat),
{
    let ghost before = block@;
    while block.len() < capacity
        invariant
            before.len() <= block@.len() <= capacity,
            block@ == resized(before, block@.len()),
        decreases capacity - block@.len(),
    {
        block.push(None);
        assert(block@ =~= resized(before, block@.len()));
    }
}

} // verus!
