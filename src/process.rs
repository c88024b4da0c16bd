//! The owner's side and the worker's side of one spawned worker.
use vstd::prelude::*;

use crate::error::Error;

verus! {

/// What the process-stats service reports about a worker.
#[derive(Debug, Clone, Copy, PartialEq, Eq, Structural)]
pub struct Stats {
    /// Time spent on a CPU, in nanoseconds.
    pub total_time_ns: u64,
    /// How many times the worker moved between cores.
    pub nr_migrations: u64,
}

/// What a worker is to do when it asks for its next iteration budget.
#[derive(Debug, Clone, Copy, PartialEq, Eq, Structural)]
pub enum Next {
    /// Run this many iterations.
    Run(u64),
    /// No budget yet: block until one is published.
    Wait,
    /// The context stopped: leave the worker loop.
    Exit,
}

/// One spawned worker: its identity, the budget published to it, and the
/// statistics gathered when it was last waited on.
#[derive(Clone, Copy)]
pub struct ProcessHandle {
    pid: u64,
    budget: u64,
    pending: bool,
    stats: Option<Stats>,
}

impl ProcessHandle {
    /// The operating-system identity of the worker.
    pub closed spec fn pid_spec(&self) -> u64 {
        self.pid
    }

    /// The last budget published.
    pub closed spec fn budget_spec(&self) -> u64 {
        self.budget
    }

    /// Whether a published budget has not been picked up yet.
    pub closed spec fn pending_spec(&self) -> bool {
        self.pending
    }

    /// The statistics of the last wait, if the worker was waited on since its
    /// last start.
    pub closed spec fn stats_spec(&self) -> Option<Stats> {
        self.stats
    }

    /// A handle for the worker `pid`, with no budget published yet.
    pub fn new(pid: u64) -> (r: ProcessHandle)
        ensures
            r.pid_spec() == pid,
            !r.pending_spec(),
            r.stats_spec() is None,
    {
        ProcessHandle { pid, budget: 0, pending: false, stats: None }
    }

    /// The operating-system identity of the worker.
    pub fn pid(&self) -> (r: u64)
        ensures
            r == self.pid_spec(),
    {
        self.pid
    }

    /// Publishes `iters` as the worker's next budget. Statistics of an earlier
    /// round are no longer valid.
    pub fn start(&mut self, iters: u64)
        ensures
            final(self).pid_spec() == old(self).pid_spec(),
            final(self).budget_spec() == iters,
            final(self).pending_spec(),
            final(self).stats_spec() is None,
    {
        self.budget = iters;
        self.pending = true;
        self.stats = None;
    }

    /// The worker asks for its next budget. A stopped context sends it out of
    /// its loop, even with a budget pending; otherwise it runs the pending
    /// budget once, or waits for one.
    pub fn next_budget(&mut self, running: bool) -> (r: Next)
        ensures
            final(self).pid_spec() == old(self).pid_spec(),
            final(self).budget_spec() == old(self).budget_spec(),
            final(self).stats_spec() == old(self).stats_spec(),
            !running ==> r == Next::Exit && final(self).pending_spec() == old(self).pending_spec(),
            running && old(self).pending_spec() ==> r == Next::Run(old(self).budget_spec())
                && !final(self).pending_spec(),
            running && !old(self).pending_spec() ==> r == Next::Wait && !final(self).pending_spec(),
    {
        if !running {
            Next::Exit
        } else if self.pending {
            self.pending = false;
            Next::Run(self.budget)
        } else {
            Next::Wait
        }
    }

    /// Ends a round once the worker has quiesced, keeping the statistics that
    /// the process-stats service reported for it. Returns them.
    pub fn wait(&mut self, observed: Stats) -> (r: Stats)
        ensures
            r == observed,
            final(self).pid_spec() == old(self).pid_spec(),
            final(self).budget_spec() == old(self).budget_spec(),
            !final(self).pending_spec(),
            final(self).stats_spec() == Some(observed),
    {
        self.pending = false;
        self.stats = Some(observed);
        observed
    }

    /// The statistics of the last wait; `NotReady` before the worker has
    /// been waited on.
    pub fn stats(&self) -> (r: Result<Stats, Error>)
        ensures
            self.stats_spec() is Some ==> r == Ok::<Stats, Error>(self.stats_spec()->Some_0),
            self.stats_spec() is None ==> r == Err::<Stats, Error>(Error::NotReady),
    {
        match self.stats {
            Some(s) => Ok(s),
            None => Err(Error::NotReady),
        }
    }
}

} // verus!
