//! Shared-memory orchestration and measurement for scheduler workloads.
//!
//! The library holds the logic of the layer: bump allocation in an arena and
//! the typed handles drawn from it, a counting semaphore with wake-latency
//! capture, the lifecycle of a context and its workers, an online
//! distribution of durations, the decisions of the convergence driver, and
//! the constraints a machine must meet. Each is a state machine or a function
//! on plain values; blocking, clocks, threads and processes belong to the
//! caller, who hands in the current time and the statistics it observed.

pub mod arena;
pub mod benchmark;
pub mod cases;
pub mod clock;
pub mod constraints;
pub mod context;
pub mod error;
pub mod process;
pub mod sched;
pub mod semaphore;
pub mod shared;
pub mod stats;
