//! Bump allocation over a fixed-capacity region addressed by offset.
use vstd::prelude::*;

use crate::error::Error;

verus! {

/// Bytes of padding needed to move `offset` up to a multiple of `align`
/// (no padding for an alignment of zero or one).
pub open spec fn pad_spec(offset: nat, align: nat) -> nat {
    if align == 0 || offset % align == 0 {
        0
    } else {
        (align - offset % align) as nat
    }
}

/// Where an object of the given alignment would start, given the bump offset.
pub open spec fn start_spec(offset: nat, align: nat) -> nat {
    offset + pad_spec(offset, align)
}

/// Whether an object of `size` bytes and alignment `align` still fits.
pub open spec fn fits_spec(a: ArenaState, size: nat, align: nat) -> bool {
    start_spec(a.offset, align) + size <= a.capacity
}

/// Total size of the first `n` requests.
pub open spec fn prefix_sum(sizes: Seq<nat>, n: int) -> nat
    decreases n,
{
    if n <= 0 {
        0
    } else {
        prefix_sum(sizes, n - 1) + sizes[n - 1]
    }
}

/// The arena after the first `i` of the byte-aligned requests `sizes` were
/// tried one after another; a request that does not fit changes nothing.
pub open spec fn run_state(a: ArenaState, sizes: Seq<nat>, i: int) -> ArenaState
    decreases i,
{
    if i <= 0 {
        a
    } else {
        let p = run_state(a, sizes, i - 1);
        if fits_spec(p, sizes[i - 1], 1) {
            ArenaState { capacity: p.capacity, offset: p.offset + sizes[i - 1] }
        } else {
            p
        }
    }
}

/// Whether request `i` of `sizes` succeeds when they are tried in order.
pub open spec fn run_succeeds(a: ArenaState, sizes: Seq<nat>, i: int) -> bool {
    fits_spec(run_state(a, sizes, i), sizes[i], 1)
}

proof fn lemma_run_state(a: ArenaState, sizes: Seq<nat>, i: int)
    requires
        0 <= i <= sizes.len(),
        a.offset + prefix_sum(sizes, i) <= a.capacity,
    ensures
        run_state(a, sizes, i) == (ArenaState { capacity: a.capacity, offset: a.offset + prefix_sum(sizes, i) }),
    decreases i,
{
    if i > 0 {
        lemma_run_state(a, sizes, i - 1);
    }
}

/// Allocation is monotonic and bounded by the capacity: when byte-aligned
/// requests are made one after another, every request whose running total
/// still fits succeeds, and the first one whose running total passes the
/// capacity fails.
pub proof fn lemma_allocations_until_full(a: ArenaState, sizes: Seq<nat>, i: int)
    requires
        a.offset <= a.capacity,
        0 <= i < sizes.len(),
        a.offset + prefix_sum(sizes, i) <= a.capacity,
    ensures
        run_succeeds(a, sizes, i) <==> a.offset + prefix_sum(sizes, i + 1) <= a.capacity,
        forall|j: int| 0 <= j < i ==> run_succeeds(a, sizes, j),
{
    lemma_run_state(a, sizes, i);
    assert forall|j: int| 0 <= j < i implies run_succeeds(a, sizes, j) by {
        lemma_prefix_mono(sizes, j + 1, i);
        lemma_run_state(a, sizes, j);
    }
}

proof fn lemma_prefix_mono(sizes: Seq<nat>, j: int, i: int)
    requires
        0 <= j <= i <= sizes.len(),
    ensures
        prefix_sum(sizes, j) <= prefix_sum(sizes, i),
    decreases i - j,
{
    if j < i {
        lemma_prefix_mono(sizes, j, i - 1);
    }
}

/// The abstract state of an arena: its capacity and its bump offset.
pub struct ArenaState {
    pub capacity: nat,
    pub offset: nat,
}

/// A bump allocator over a region of `capacity` bytes. Offsets only grow;
/// no single allocation is ever given back.
pub struct BumpAllocator {
    name: String,
    capacity: usize,
    offset: usize,
}

impl View for BumpAllocator {
    type V = ArenaState;

    closed spec fn view(&self) -> ArenaState {
        ArenaState { capacity: self.capacity as nat, offset: self.offset as nat }
    }
}

fn padding(offset: usize, align: usize) -> (r: usize)
    ensures
        r == pad_spec(offset as nat, align as nat),
        align > 0 ==> r < align,
        align == 0 ==> r == 0,
{
    if align == 0 {
        return 0;
    }
    let rem = offset % align;
    if rem == 0 {
        0
    } else {
        align - rem
    }
}

impl BumpAllocator {
    /// The well-formedness of an arena: the bump offset never passes the
    /// capacity, which an address can span.
    pub open spec fn wf(&self) -> bool {
        self@.offset <= self@.capacity <= usize::MAX
    }

    /// Creates an empty arena of exactly `capacity` bytes.
    pub fn new(name: &str, capacity: usize) -> (r: BumpAllocator)
        ensures
            r.wf(),
            r@.capacity == capacity,
            r@.offset == 0,
            r.name_spec() == name@,
    {
        BumpAllocator { name: name.to_owned(), capacity, offset: 0 }
    }

    /// The name the arena was created with.
    pub closed spec fn name_spec(&self) -> Seq<char> {
        self.name@
    }

    /// The name the arena was created with.
    pub fn name(&self) -> (r: &str)
        ensures
            r@ == self.name_spec(),
    {
        self.name.as_str()
    }

    /// Total capacity in bytes.
    pub fn capacity(&self) -> (r: usize)
        ensures
            r == self@.capacity,
    {
        self.capacity
    }

    /// Bytes handed out so far, padding included.
    pub fn used(&self) -> (r: usize)
        ensures
            r == self@.offset,
    {
        self.offset
    }

    /// Reserves `size` bytes aligned to `align` and returns their offset.
    /// Fails with `OutOfMemory`, changing nothing, when they do not fit.
    pub fn allocate(&mut self, size: usize, align: usize) -> (r: Result<usize, Error>)
        requires
            old(self).wf(),
        ensures
            final(self).wf(),
            final(self)@.capacity == old(self)@.capacity,
            final(self).name_spec() == old(self).name_spec(),
            fits_spec(old(self)@, size as nat, align as nat) ==> {
                &&& r == Ok::<usize, Error>(start_spec(old(self)@.offset, align as nat) as usize)
                &&& final(self)@.offset == start_spec(old(self)@.offset, align as nat) + size
            },
            !fits_spec(old(self)@, size as nat, align as nat) ==> {
                &&& r == Err::<usize, Error>(Error::OutOfMemory)
                &&& final(self)@ == old(self)@
            },
    {
        let pad = padding(self.offset, align);
        if pad > self.capacity - self.offset {
            return Err(Error::OutOfMemory);
        }
        let start = self.offset + pad;
        if size > self.capacity - start {
            return Err(Error::OutOfMemory);
        }
        self.offset = start + size;
        Ok(start)
    }
}

} // verus!
