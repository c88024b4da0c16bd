//! Typed handles to objects that live at fixed offsets of an arena.
use vstd::prelude::*;

use crate::arena::{fits_spec, start_spec, ArenaState, BumpAllocator};
use crate::error::Error;

verus! {

/// Whether an object of type `T` still fits in the arena.
pub open spec fn fits_one<T>(a: ArenaState) -> bool {
    fits_spec(a, vstd::layout::size_of::<T>(), vstd::layout::align_of::<T>())
}

/// Whether `n` objects of type `T`, laid out back to back, still fit in the arena.
pub open spec fn fits_many<T>(a: ArenaState, n: nat) -> bool {
    fits_spec(a, n * vstd::layout::size_of::<T>(), vstd::layout::align_of::<T>())
}

/// One object of type `T` at a fixed offset of an arena.
pub struct SharedBox<T> {
    offset: usize,
    value: T,
}

impl<T> SharedBox<T> {
    /// The byte offset of the object in its arena.
    pub closed spec fn offset_spec(&self) -> nat {
        self.offset as nat
    }

    /// The object held.
    pub closed spec fn value(&self) -> T {
        self.value
    }

    /// Places `value` in the arena, at the next offset aligned for `T`.
    /// Fails with `OutOfMemory`, leaving the arena as it was, when it does
    /// not fit.
    pub fn new(arena: &mut BumpAllocator, value: T) -> (r: Result<SharedBox<T>, Error>)
        requires
            old(arena).wf(),
        ensures
            final(arena).wf(),
            final(arena)@.capacity == old(arena)@.capacity,
            fits_one::<T>(old(arena)@) ==> r is Ok && r->Ok_0.value() == value
                && r->Ok_0.offset_spec() == start_spec(old(arena)@.offset, vstd::layout::align_of::<T>())
                && final(arena)@.offset == r->Ok_0.offset_spec() + vstd::layout::size_of::<T>(),
            !fits_one::<T>(old(arena)@) ==> r == Err::<SharedBox<T>, Error>(Error::OutOfMemory)
                && final(arena)@ == old(arena)@,
    {
        let size = core::mem::size_of::<T>();
        let align = core::mem::align_of::<T>();
        match arena.allocate(size, align) {
            Ok(offset) => Ok(SharedBox { offset, value }),
            Err(e) => Err(e),
        }
    }

    /// The byte offset of the object in its arena.
    pub fn offset(&self) -> (r: usize)
        ensures
            r == self.offset_spec(),
    {
        self.offset
    }

    /// The object held.
    pub fn get(&self) -> (r: &T)
        ensures
            *r == self.value(),
    {
        &self.value
    }

    /// The object held, to operate on in place.
    pub fn get_mut(&mut self) -> (r: &mut T)
        ensures
            *r == old(self).value(),
            final(self).value() == *final(r),
            final(self).offset_spec() == old(self).offset_spec(),
    {
        &mut self.value
    }

    /// Replaces the object held.
    pub fn set(&mut self, value: T)
        ensures
            final(self).value() == value,
            final(self).offset_spec() == old(self).offset_spec(),
    {
        self.value = value;
    }
}

/// An append-only sequence of `T` whose storage for `capacity` elements was
/// reserved in an arena up front. Pushed elements keep their positions.
pub struct SharedVec<T> {
    offset: usize,
    capacity: usize,
    items: Vec<T>,
}

impl<T> View for SharedVec<T> {
    type V = Seq<T>;

    closed spec fn view(&self) -> Seq<T> {
        self.items@
    }
}

impl<T> SharedVec<T> {
    /// The number of elements that storage was reserved for.
    pub closed spec fn capacity_spec(&self) -> nat {
        self.capacity as nat
    }

    /// The byte offset of the reserved storage in its arena.
    pub closed spec fn offset_spec(&self) -> nat {
        self.offset as nat
    }

    /// Never more elements than reserved storage.
    pub open spec fn wf(&self) -> bool {
        self@.len() <= self.capacity_spec()
    }

    /// Reserves room for `capacity` elements of `T` in the arena and returns
    /// an empty sequence over it. Fails with `OutOfMemory`, leaving the arena
    /// as it was, when the room is not there.
    pub fn with_capacity(arena: &mut BumpAllocator, capacity: usize) -> (r: Result<SharedVec<T>, Error>)
        requires
            old(arena).wf(),
        ensures
            final(arena).wf(),
            final(arena)@.capacity == old(arena)@.capacity,
            fits_many::<T>(old(arena)@, capacity as nat) ==> r is Ok && r->Ok_0.wf()
                && r->Ok_0@.len() == 0 && r->Ok_0.capacity_spec() == capacity
                && r->Ok_0.offset_spec() == start_spec(old(arena)@.offset, vstd::layout::align_of::<T>())
                && final(arena)@.offset == r->Ok_0.offset_spec() + capacity * vstd::layout::size_of::<T>(),
            !fits_many::<T>(old(arena)@, capacity as nat) ==> r == Err::<SharedVec<T>, Error>(Error::OutOfMemory)
                && final(arena)@ == old(arena)@,
    {
        let size = core::mem::size_of::<T>();
        let align = core::mem::align_of::<T>();
        let bytes = match capacity.checked_mul(size) {
            Some(b) => b,
            None => {
                return Err(Error::OutOfMemory);
            },
        };
        match arena.allocate(bytes, align) {
            Ok(offset) => Ok(SharedVec { offset, capacity, items: Vec::new() }),
            Err(e) => Err(e),
        }
    }

    /// Appends `value`. Fails with `CapacityExceeded`, changing nothing, when
    /// the reserved storage is full.
    pub fn push(&mut self, value: T) -> (r: Result<(), Error>)
        requires
            old(self).wf(),
        ensures
            final(self).wf(),
            final(self).capacity_spec() == old(self).capacity_spec(),
            final(self).offset_spec() == old(self).offset_spec(),
            old(self)@.len() < old(self).capacity_spec() ==> r is Ok && final(self)@ == old(self)@.push(value),
            old(self)@.len() >= old(self).capacity_spec() ==> r == Err::<(), Error>(Error::CapacityExceeded)
                && final(self)@ == old(self)@,
    {
        if self.items.len() < self.capacity {
            self.items.push(value);
            Ok(())
        } else {
            Err(Error::CapacityExceeded)
        }
    }

    /// Number of elements pushed so far.
    pub fn len(&self) -> (r: usize)
        ensures
            r == self@.len(),
    {
        self.items.len()
    }

    /// Number of elements the reserved storage holds.
    pub fn capacity(&self) -> (r: usize)
        ensures
            r == self.capacity_spec(),
    {
        self.capacity
    }

    /// The byte offset of the reserved storage in its arena.
    pub fn offset(&self) -> (r: usize)
        ensures
            r == self.offset_spec(),
    {
        self.offset
    }

    /// The element at position `i`.
    pub fn get(&self, i: usize) -> (r: &T)
        requires
            i < self@.len(),
        ensures
            *r == self@[i as int],
    {
        &self.items[i]
    }
}

} // verus!
