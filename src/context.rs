//! The unit of a workload's lifecycle: one arena, a running flag, and the
//! workers registered with it.
use vstd::prelude::*;

use crate::arena::{start_spec, ArenaState, BumpAllocator};
use crate::error::Error;
use crate::process::{Next, ProcessHandle, Stats};
use crate::shared::{fits_many, fits_one, SharedBox, SharedVec};

verus! {

/// Size of the arena that each context creates: one gibibyte.
pub const TOTAL_SIZE: usize = 1073741824;

/// The arena of a fresh context, before anything is placed in it.
pub open spec fn fresh_arena() -> ArenaState {
    ArenaState { capacity: TOTAL_SIZE as nat, offset: 0 }
}

/// Shared memory, a running flag, and the workers of one workload.
pub struct Context {
    allocator: BumpAllocator,
    running: SharedBox<bool>,
    processes: Vec<ProcessHandle>,
}

impl Context {
    /// The state of the context's arena.
    pub closed spec fn arena(&self) -> ArenaState {
        self.allocator@
    }

    /// Whether the workers are allowed to run.
    pub closed spec fn running_spec(&self) -> bool {
        self.running.value()
    }

    /// The workers registered, in order of registration.
    pub closed spec fn processes(&self) -> Seq<ProcessHandle> {
        self.processes@
    }

    /// The arena is well formed.
    pub closed spec fn wf(&self) -> bool {
        self.allocator.wf()
    }

    /// Creates a context: a fresh arena of `TOTAL_SIZE` bytes holding a
    /// running flag that is false, and no worker. Fails with
    /// `AllocationError` when the flag does not fit in the arena.
    pub fn create() -> (r: Result<Context, Error>)
        ensures
            fits_one::<bool>(fresh_arena()) ==> r is Ok && r->Ok_0.wf() && !r->Ok_0.running_spec()
                && r->Ok_0.processes().len() == 0 && r->Ok_0.arena().capacity == TOTAL_SIZE
                && r->Ok_0.arena().offset == vstd::layout::size_of::<bool>(),
            !fits_one::<bool>(fresh_arena()) ==> r == Err::<Context, Error>(Error::AllocationError),
    {
        let mut allocator = BumpAllocator::new("context", TOTAL_SIZE);
        match SharedBox::new(&mut allocator, false) {
            Ok(running) => Ok(Context { allocator, running, processes: Vec::new() }),
            Err(_) => Err(Error::AllocationError),
        }
    }

    /// Whether the workers are allowed to run.
    pub fn running(&self) -> (r: bool)
        ensures
            r == self.running_spec(),
    {
        *self.running.get()
    }

    /// Clears the running flag, so that every worker leaves its loop when it
    /// next asks for a budget.
    pub fn stop(&mut self)
        requires
            old(self).wf(),
        ensures
            final(self).wf(),
            !final(self).running_spec(),
            final(self).processes() == old(self).processes(),
            final(self).arena() == old(self).arena(),
    {
        self.running.set(false);
    }

    /// Accepts a worker body. Workers are spawned by the caller and made known
    /// with `register`, so nothing is kept of `f`.
    pub fn add<F>(&self, f: F) -> (r: Result<(), Error>)
        ensures
            r is Ok,
    {
        Ok(())
    }

    /// Makes the worker `pid` known to the context and returns its position.
    pub fn register(&mut self, pid: u64) -> (r: usize)
        requires
            old(self).wf(),
            old(self).processes().len() < usize::MAX,
        ensures
            final(self).wf(),
            r == old(self).processes().len(),
            final(self).processes().len() == old(self).processes().len() + 1,
            forall|j: int| 0 <= j < r ==> final(self).processes()[j] == old(self).processes()[j],
            final(self).processes()[r as int].pid_spec() == pid,
            !final(self).processes()[r as int].pending_spec(),
            final(self).processes()[r as int].stats_spec() is None,
            final(self).running_spec() == old(self).running_spec(),
            final(self).arena() == old(self).arena(),
    {
        let r = self.processes.len();
        self.processes.push(ProcessHandle::new(pid));
        r
    }

    /// Number of workers registered.
    pub fn num_processes(&self) -> (r: usize)
        ensures
            r == self.processes().len(),
    {
        self.processes.len()
    }

    /// The worker at position `i`.
    pub fn process(&self, i: usize) -> (r: &ProcessHandle)
        requires
            i < self.processes().len(),
        ensures
            *r == self.processes()[i as int],
    {
        &self.processes[i]
    }

    /// Publishes `iters` as the next budget of every worker and sets the
    /// running flag. Never blocks.
    pub fn start(&mut self, iters: u64)
        requires
            old(self).wf(),
        ensures
            final(self).wf(),
            final(self).running_spec(),
            final(self).arena() == old(self).arena(),
            final(self).processes().len() == old(self).processes().len(),
            forall|j: int|
                0 <= j < final(self).processes().len() ==> {
                    let p = #[trigger] final(self).processes()[j];
                    &&& p.pid_spec() == old(self).processes()[j].pid_spec()
                    &&& p.budget_spec() == iters
                    &&& p.pending_spec()
                    &&& p.stats_spec() is None
                },
    {
        let mut i: usize = 0;
        while i < self.processes.len()
            invariant
                self.allocator == old(self).allocator,
                self.running == old(self).running,
                self.processes@.len() == old(self).processes@.len(),
                i <= self.processes@.len(),
                forall|j: int|
                    0 <= j < i ==> {
                        let p = #[trigger] self.processes@[j];
                        &&& p.pid_spec() == old(self).processes@[j].pid_spec()
                        &&& p.budget_spec() == iters
                        &&& p.pending_spec()
                        &&& p.stats_spec() is None
                    },
                forall|j: int| i <= j < self.processes@.len() ==> self.processes@[j] == old(self).processes@[j],
            decreases self.processes@.len() - i,
        {
            let mut p = self.processes[i];
            p.start(iters);
            self.processes.set(i, p);
            i = i + 1;
        }
        self.running.set(true);
    }

    /// Worker `i` asks for its next budget (see `ProcessHandle::next_budget`).
    pub fn next_budget(&mut self, i: usize) -> (r: Next)
        requires
            old(self).wf(),
            i < old(self).processes().len(),
        ensures
            final(self).wf(),
            final(self).running_spec() == old(self).running_spec(),
            final(self).arena() == old(self).arena(),
            final(self).processes().len() == old(self).processes().len(),
            forall|j: int|
                0 <= j < old(self).processes().len() && j != i ==> final(self).processes()[j] == old(self).processes()[j],
            !old(self).running_spec() ==> r == Next::Exit,
            old(self).running_spec() && old(self).processes()[i as int].pending_spec() ==> r == Next::Run(
                old(self).processes()[i as int].budget_spec(),
            ),
            old(self).running_spec() && !old(self).processes()[i as int].pending_spec() ==> r == Next::Wait,
    {
        let running = *self.running.get();
        let mut p = self.processes[i];
        let r = p.next_budget(running);
        self.processes.set(i, p);
        r
    }

    /// Ends a round: clears the running flag and, once the workers have
    /// quiesced, keeps for each the statistics that the process-stats
    /// service reported (`observed[j]` for worker `j`).
    pub fn wait(&mut self, observed: &Vec<Stats>)
        requires
            old(self).wf(),
            observed@.len() == old(self).processes().len(),
        ensures
            final(self).wf(),
            !final(self).running_spec(),
            final(self).arena() == old(self).arena(),
            final(self).processes().len() == old(self).processes().len(),
            forall|j: int|
                0 <= j < final(self).processes().len() ==> {
                    let p = #[trigger] final(self).processes()[j];
                    &&& p.pid_spec() == old(self).processes()[j].pid_spec()
                    &&& !p.pending_spec()
                    &&& p.stats_spec() == Some(observed@[j])
                },
    {
        self.running.set(false);
        let mut i: usize = 0;
        while i < self.processes.len()
            invariant
                self.allocator == old(self).allocator,
                !self.running.value(),
                self.processes@.len() == old(self).processes@.len(),
                observed@.len() == self.processes@.len(),
                i <= self.processes@.len(),
                forall|j: int|
                    0 <= j < i ==> {
                        let p = #[trigger] self.processes@[j];
                        &&& p.pid_spec() == old(self).processes@[j].pid_spec()
                        &&& !p.pending_spec()
                        &&& p.stats_spec() == Some(observed@[j])
                    },
                forall|j: int| i <= j < self.processes@.len() ==> self.processes@[j] == old(self).processes@[j],
            decreases self.processes@.len() - i,
        {
            let mut p = self.processes[i];
            p.wait(observed[i]);
            self.processes.set(i, p);
            i = i + 1;
        }
    }

    /// Places `value` in the context's arena (see `SharedBox::new`).
    pub fn allocate<T>(&mut self, value: T) -> (r: Result<SharedBox<T>, Error>)
        requires
            old(self).wf(),
        ensures
            final(self).wf(),
            final(self).running_spec() == old(self).running_spec(),
            final(self).processes() == old(self).processes(),
            final(self).arena().capacity == old(self).arena().capacity,
            final(self).arena().offset >= old(self).arena().offset,
            fits_one::<T>(old(self).arena()) ==> r is Ok && r->Ok_0.value() == value
                && r->Ok_0.offset_spec() == start_spec(old(self).arena().offset, vstd::layout::align_of::<T>())
                && final(self).arena().offset == r->Ok_0.offset_spec() + vstd::layout::size_of::<T>(),
            !fits_one::<T>(old(self).arena()) ==> r == Err::<SharedBox<T>, Error>(Error::OutOfMemory)
                && final(self).arena() == old(self).arena(),
    {
        SharedBox::new(&mut self.allocator, value)
    }

    /// Reserves room for `size` elements in the context's arena and fills it
    /// with `f(0)`, ..., `f(size - 1)`. Fails with `OutOfMemory`, leaving the
    /// arena as it was, when the room is not there.
    pub fn allocate_vec<T, F>(&mut self, size: usize, f: F) -> (r: Result<SharedVec<T>, Error>)
        where
            F: Fn(usize) -> T,
        requires
            old(self).wf(),
            forall|i: usize| i < size ==> f.requires((i,)),
        ensures
            final(self).wf(),
            final(self).running_spec() == old(self).running_spec(),
            final(self).processes() == old(self).processes(),
            final(self).arena().capacity == old(self).arena().capacity,
            final(self).arena().offset >= old(self).arena().offset,
            fits_many::<T>(old(self).arena(), size as nat) ==> r is Ok && r->Ok_0.wf()
                && r->Ok_0@.len() == size && r->Ok_0.capacity_spec() == size
                && r->Ok_0.offset_spec() == start_spec(old(self).arena().offset, vstd::layout::align_of::<T>())
                && final(self).arena().offset == r->Ok_0.offset_spec() + size * vstd::layout::size_of::<T>()
                && forall|i: int| 0 <= i < size ==> f.ensures((i as usize,), #[trigger] r->Ok_0@[i]),
            !fits_many::<T>(old(self).arena(), size as nat) ==> r == Err::<SharedVec<T>, Error>(Error::OutOfMemory)
                && final(self).arena() == old(self).arena(),
    {
        let mut vec = match SharedVec::with_capacity(&mut self.allocator, size) {
            Ok(v) => v,
            Err(e) => return Err(e),
        };
        let mut i: usize = 0;
        while i < size
            invariant
                i <= size,
                vec.wf(),
                vec@.len() == i,
                vec.capacity_spec() == size,
                vec.offset_spec() == start_spec(old(self).arena().offset, vstd::layout::align_of::<T>()),
                self.arena().offset == vec.offset_spec() + size * vstd::layout::size_of::<T>(),
                forall|k: usize| k < size ==> f.requires((k,)),
                forall|k: int| 0 <= k < i ==> f.ensures((k as usize,), #[trigger] vec@[k]),
            decreases size - i,
        {
            let x = f(i);
            match vec.push(x) {
                Ok(()) => {},
                Err(e) => return Err(e),
            }
            i = i + 1;
        }
        Ok(vec)
    }
}

} // verus!
