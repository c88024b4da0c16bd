//! Failure kinds of the orchestration layer.
use vstd::prelude::*;

verus! {

/// Every way an operation of this library can fail.
#[derive(Debug, Clone, Copy, PartialEq, Eq, Structural)]
pub enum Error {
    /// The backing region could not be created or mapped.
    AllocationError,
    /// The arena has no room left for the requested object.
    OutOfMemory,
    /// A bounded sequence or queue is already full.
    CapacityExceeded,
    /// A semaphore operation gave up after its deadline.
    TimedOut,
    /// A cooperating process died while holding coordination state.
    Poisoned,
    /// Statistics were asked for before the process was waited on.
    NotReady,
    /// A worker could not be spawned.
    SpawnFailure,
}

impl Error {
    /// A short human-readable description of the failure.
    pub fn message(&self) -> (r: &'static str)
        ensures
            *self == Error::AllocationError ==> r@ == "shared memory allocation failed"@,
            *self == Error::OutOfMemory ==> r@ == "out of shared memory"@,
            *self == Error::CapacityExceeded ==> r@ == "capacity exceeded"@,
            *self == Error::TimedOut ==> r@ == "timed out"@,
            *self == Error::Poisoned ==> r@ == "poisoned by a dead participant"@,
            *self == Error::NotReady ==> r@ == "statistics not ready"@,
            *self == Error::SpawnFailure ==> r@ == "failed to spawn worker"@,
    {
        match self {
            Error::AllocationError => "shared memory allocation failed",
            Error::OutOfMemory => "out of shared memory",
            Error::CapacityExceeded => "capacity exceeded",
            Error::TimedOut => "timed out",
            Error::Poisoned => "poisoned by a dead participant",
            Error::NotReady => "statistics not ready",
            Error::SpawnFailure => "failed to spawn worker",
        }
    }
}

} // verus!
