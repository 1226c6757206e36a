//! The buffer: a block of slots and the operations that keep its capacity in
//! step with the block.

use crate::raw::block;
use crate::raw::block::{fits, resized, vacant};
use vstd::layout::size_of;
use vstd::prelude::*;

verus! {

/// A heap buffer of slots, each vacant or holding one `T`.
///
/// The capacity is the number of slots. It also tells whether any cleanup is
/// due: a buffer of capacity zero owns no block. A buffer whose element type
/// occupies no storage always has capacity zero.
pub struct Buffer<T> {
    block: Vec<Option<T>>,
}

impl<T> View for Buffer<T> {
    type V = Seq<Option<T>>;

    /// The slots, in order. Their number is the capacity.
    closed spec fn view(&self) -> Seq<Option<T>> {
        self.block@
    }
}

impl<T> Buffer<T> {
    /// The byte size of the capacity is representable, and an element type
    /// without storage has no slots.
    #[verifier::type_invariant]
    spec fn wf(&self) -> bool {
        &&& fits::<T>(self.block@.len())
        &&& size_of::<T>() == 0 ==> self.block@.len() == 0
    }

    /// The capacity that a request for `capacity` slots ends in: the request
    /// itself, or zero where `T` occupies no storage.
    pub open spec fn granted(capacity: nat) -> nat {
        if size_of::<T>() == 0 {
            0
        } else {
            capacity
        }
    }

    /// A new buffer with room for `capacity` elements, all slots vacant.
    ///
    /// With capacity zero, or a `T` without storage, the buffer starts empty
    /// and nothing is allocated.
    pub fn allocate(capacity: usize) -> (buffer: Buffer<T>)
        requires
            fits::<T>(capacity as nat),
        ensures
            buffer@ == vacant::<T>(Self::granted(capacity as nat)),
    {
        Buffer { block: allocate_or_empty(capacity) }
    }

    /// A new buffer without a block: `allocate(0)`.
    pub fn empty() -> (buffer: Buffer<T>)
        ensures
            buffer@ == Seq::<Option<T>>::empty(),
    {
        assert(fits::<T>(0)) by (nonlinear_arith);
        let buffer = Buffer::allocate(0);
        assert(buffer@ =~= Seq::<Option<T>>::empty());
        buffer
    }

    /// The number of slots. It is zero for every buffer whose element type
    /// occupies no storage, and its byte size is always representable.
    pub fn capacity(&self) -> (capacity: usize)
        ensures
            capacity == self@.len(),
            size_of::<T>() == 0 ==> capacity == 0,
            fits::<T>(capacity as nat),
    {
        proof {
            use_type_invariant(self);
        }
        self.block.len()
    }

    /// The block itself. It is the empty block exactly when the capacity is
    /// zero.
    pub fn buffer(&self) -> (block: &Vec<Option<T>>)
        ensures
            block@ == self@,
    {
        &self.block
    }

    /// The slot at `index`, which lies below the capacity.
    pub fn get(&self, index: usize) -> (slot: &Option<T>)
        requires
            index < self@.len(),
        ensures
            *slot == self@[index as int],
    {
        &self.block[index]
    }

    /// The slot at `index`, which lies below the capacity, for writing. What
    /// the caller leaves in it is what the buffer holds there afterwards; the
    /// other slots are untouched.
    pub fn get_mut(&mut self, index: usize) -> (slot: &mut Option<T>)
        requires
            index < old(self)@.len(),
        ensures
            *slot == old(self)@[index as int],
            final(self)@ == old(self)@.update(index as int, *final(slot)),
    {
        proof {
            use_type_invariant(&*self);
        }
        &mut self.block[index]
    }

    /// Writes `data` into the slot at `index`, which lies below the capacity.
    /// What the slot held before is dropped.
    pub fn set(&mut self, index: usize, data: T)
        requires
            index < old(self)@.len(),
        ensures
            final(self)@ == old(self)@.update(index as int, Some(data)),
    {
        proof {
            use_type_invariant(&*self);
        }
        self.block[index] = Some(data);
    }

    /// Resizes the buffer to `capacity` slots, which is not zero.
    ///
    /// An empty buffer gets its first block. Otherwise the block grows or
    /// shrinks: the slots below both capacities keep what they held, and new
    /// slots are vacant. Nothing happens where `T` occupies no storage.
    pub fn reallocate(&mut self, capacity: usize)
        requires
            capacity != 0,
            fits::<T>(capacity as nat),
        ensures
            final(self)@ == resized(old(self)@, Self::granted(capacity as nat)),
    {
        proof {
            use_type_invariant(&*self);
        }
        if core::mem::size_of::<T>() == 0 {
            assert(self@ =~= resized(self@, 0));
            return ;
        }
        let mut old_block: Vec<Option<T>> = block::empty();
        assert(fits::<T>(0)) by (nonlinear_arith);
        core::mem::swap(&mut self.block, &mut old_block);
        let old_capacity = old_block.len();
        self.block = if old_capacity == 0 {
            block::allocate(capacity)
        } else {
            block::reallocate(old_block, old_capacity, capacity)
        };
        assert(self@ =~= resized(old(self)@, capacity as nat));
    }

    /// Releases the block, if there is one, and leaves the buffer empty.
    pub fn deallocate(&mut self)
        ensures
            final(self)@ == Seq::<Option<T>>::empty(),
    {
        proof {
            use_type_invariant(&*self);
        }
        if core::mem::size_of::<T>() == 0 {
            assert(self@ =~= Seq::<Option<T>>::empty());
            return ;
        }
        let mut old_block: Vec<Option<T>> = block::empty();
        assert(fits::<T>(0)) by (nonlinear_arith);
        core::mem::swap(&mut self.block, &mut old_block);
        let capacity = old_block.len();
        if capacity != 0 {
            block::deallocate(old_block, capacity);
        }
    }
}

/// A fresh block of `capacity` slots, or the empty block where `capacity` is
/// zero or `T` occupies no storage.
fn allocate_or_empty<T>(capacity: usize) -> (block: Vec<Option<T>>)
    requires
        fits::<T>(capacity as nat),
    ensures
        block@ == vacant::<T>(Buffer::<T>::granted(capacity as nat)),
{
    if core::mem::size_of::<T>() == 0 || capacity == 0 {
        let block = block::empty();
        assert(block@ =~= vacant::<T>(0));
        block
    } else {
        block::allocate(capacity)
    }
}

/// A value written to a slot of a freshly allocated buffer is the value read
/// from that slot, and the write leaves every other slot vacant: for an
/// element type with storage, a request for `capacity` slots grants them all,
/// so this holds of each index below `capacity`.
pub proof fn write_then_read<T>(capacity: nat, index: int, data: T)
    requires
        size_of::<T>() != 0,
        0 <= index < capacity,
    ensures
        Buffer::<T>::granted(capacity) == capacity,
        vacant::<T>(Buffer::<T>::granted(capacity)).update(index, Some(data))[index] == Some(data),
        forall|other: int|
            0 <= other < capacity && other != index ==> (#[trigger] vacant::<T>(
                Buffer::<T>::granted(capacity),
            ).update(index, Some(data))[other]) == None::<T>,
{
}

/// A write to one slot is read back from that slot and changes no other,
/// whatever the buffer held before.
pub proof fn write_changes_one_slot<T>(slots: Seq<Option<T>>, index: int, data: T)
    requires
        0 <= index < slots.len(),
    ensures
        slots.update(index, Some(data)).len() == slots.len(),
        slots.update(index, Some(data))[index] == Some(data),
        forall|other: int|
            0 <= other < slots.len() && other != index ==> (#[trigger] slots.update(
                index,
                Some(data),
            )[other]) == slots[other],
{
}

/// A resize keeps the first `written` slots as they were, as long as
/// `written` exceeds neither the old capacity nor the new one. Slots that a
/// growth adds are vacant.
pub proof fn resize_keeps_prefix<T>(slots: Seq<Option<T>>, capacity: nat, written: nat)
    requires
        written <= slots.len(),
        written <= capacity,
    ensures
        resized(slots, capacity).len() == capacity,
        resized(slots, capacity).subrange(0, written as int) == slots.subrange(0, written as int),
        forall|added: int|
            slots.len() <= added < capacity ==> (#[trigger] resized(slots, capacity)[added])
                == None::<T>,
{
    assert(resized(slots, capacity).subrange(0, written as int) =~= slots.subrange(
        0,
        written as int,
    ));
}

/// Where the element type occupies no storage, every request is granted
/// without a block: a new buffer is empty whatever capacity is asked for, and
/// a resize of an empty buffer leaves it empty.
pub proof fn zero_sized_gets_no_block<T>(capacity: nat)
    requires
        size_of::<T>() == 0,
    ensures
        fits::<T>(capacity),
        vacant::<T>(Buffer::<T>::granted(capacity)) == Seq::<Option<T>>::empty(),
        resized(Seq::<Option<T>>::empty(), Buffer::<T>::granted(capacity)) == Seq::<
            Option<T>,
        >::empty(),
{
    assert(capacity * size_of::<T>() == 0) by (nonlinear_arith)
        requires
            size_of::<T>() == 0,
    ;
    assert(vacant::<T>(0) =~= Seq::<Option<T>>::empty());
    assert(resized(Seq::<Option<T>>::empty(), 0) =~= Seq::<Option<T>>::empty());
}

} // verus!
