//! A counting semaphore with a bounded wait queue and wake-latency capture.
//!
//! The semaphore is a state machine: blocking and clocks belong to the caller,
//! who hands in the current time and parks a consumer that was queued until a
//! producer has woken it.
use vstd::prelude::*;

use crate::error::Error;
use crate::stats::{empty_spec, merge_spec, singleton_spec, DistView, Distribution};

verus! {

/// A consumer blocked on the semaphore: who it is and how much it asked for.
#[derive(Debug, Clone, Copy, PartialEq, Eq, Structural)]
pub struct Waiter {
    pub id: u64,
    pub amount: u64,
}

/// A consumer that a producer has woken at time `at` and that has not yet
/// resumed.
#[derive(Debug, Clone, Copy, PartialEq, Eq, Structural)]
pub struct Woken {
    pub id: u64,
    pub at: u64,
}

/// The abstract state of a semaphore.
pub struct SemView {
    pub count: nat,
    pub max: nat,
    pub max_waiters: nat,
    pub waiters: Seq<Waiter>,
    pub woken: Seq<Woken>,
    pub stats: DistView,
}

/// What a producer's wake-up pass leaves behind.
pub struct WakeOutcome {
    pub count: nat,
    pub waiters: Seq<Waiter>,
    pub woken: Seq<Woken>,
}

/// Wakes, in queue order, at most `batch` waiters whose request the count can
/// cover, stopping at the first one it cannot.
pub open spec fn wake_spec(count: nat, waiters: Seq<Waiter>, batch: nat, now: u64) -> WakeOutcome
    decreases waiters.len(),
{
    if batch == 0 || waiters.len() == 0 || waiters[0].amount > count {
        WakeOutcome { count, waiters, woken: Seq::empty() }
    } else {
        let rest = wake_spec(
            (count - waiters[0].amount) as nat,
            waiters.drop_first(),
            (batch - 1) as nat,
            now,
        );
        WakeOutcome {
            count: rest.count,
            waiters: rest.waiters,
            woken: seq![Woken { id: waiters[0].id, at: now }] + rest.woken,
        }
    }
}

/// The count after adding `amount`, clamped at `max`.
pub open spec fn saturating_add(count: nat, amount: nat, max: nat) -> nat {
    if count + amount > max {
        max
    } else {
        count + amount
    }
}

/// The state after a producer adds `amount` permits at time `now` and wakes
/// up to `batch` waiters.
pub open spec fn produce_spec(s: SemView, amount: nat, batch: nat, now: u64) -> SemView {
    let w = wake_spec(saturating_add(s.count, amount, s.max), s.waiters, batch, now);
    SemView { count: w.count, waiters: w.waiters, woken: s.woken + w.woken, ..s }
}

/// Whether a consumer asking for `amount` is served at once: nobody is queued
/// ahead of it and the count covers the request.
pub open spec fn served_at_once(s: SemView, amount: nat) -> bool {
    s.waiters.len() == 0 && amount <= s.count
}

/// The outcome of a consumer's request: `Ok(true)` when it is served at once,
/// `Ok(false)` when it is queued, `CapacityExceeded` when the queue is full.
pub open spec fn consume_result(s: SemView, amount: nat) -> Result<bool, Error> {
    if served_at_once(s, amount) {
        Ok(true)
    } else if s.waiters.len() + s.woken.len() < s.max_waiters {
        Ok(false)
    } else {
        Err(Error::CapacityExceeded)
    }
}

/// The state after consumer `id` asks for `amount`. A consumer served at
/// once never waited, so it records a wake latency of zero: every consume
/// that completes contributes exactly one sample, here or on `resume`.
pub open spec fn consume_spec(s: SemView, id: u64, amount: u64) -> SemView {
    if served_at_once(s, amount as nat) {
        SemView { count: (s.count - amount) as nat, stats: merge_spec(s.stats, singleton_spec(0)), ..s }
    } else if s.waiters.len() + s.woken.len() < s.max_waiters {
        SemView { waiters: s.waiters.push(Waiter { id, amount }), ..s }
    } else {
        s
    }
}

/// The first position at or after `i` whose waiter is `id`; the length if none.
pub open spec fn waiter_pos(s: Seq<Waiter>, id: u64, i: int) -> int
    decreases s.len() - i,
{
    if i >= s.len() || i < 0 {
        s.len() as int
    } else if s[i].id == id {
        i
    } else {
        waiter_pos(s, id, i + 1)
    }
}

/// The first position at or after `i` whose woken consumer is `id`; the length
/// if none.
pub open spec fn woken_pos(s: Seq<Woken>, id: u64, i: int) -> int
    decreases s.len() - i,
{
    if i >= s.len() || i < 0 {
        s.len() as int
    } else if s[i].id == id {
        i
    } else {
        woken_pos(s, id, i + 1)
    }
}

/// The state after consumer `id` gives up waiting: it leaves the queue if it
/// is still there, and nothing else changes.
pub open spec fn cancel_spec(s: SemView, id: u64) -> SemView {
    let p = waiter_pos(s.waiters, id, 0);
    if p < s.waiters.len() {
        SemView { waiters: s.waiters.remove(p), ..s }
    } else {
        s
    }
}

/// Whether consumer `id` is still queued, so that giving up times it out.
pub open spec fn still_queued(s: SemView, id: u64) -> bool {
    waiter_pos(s.waiters, id, 0) < s.waiters.len()
}

/// The wake latency of a consumer woken at `at` that resumes at `now`.
pub open spec fn latency(at: u64, now: u64) -> nat {
    if now >= at {
        (now - at) as nat
    } else {
        0
    }
}

proof fn lemma_waiter_pos_bounds(s: Seq<Waiter>, id: u64, i: int)
    requires
        0 <= i <= s.len(),
    ensures
        i <= waiter_pos(s, id, i) <= s.len(),
        waiter_pos(s, id, i) < s.len() ==> s[waiter_pos(s, id, i)].id == id,
    decreases s.len() - i,
{
    if i < s.len() && s[i].id != id {
        lemma_waiter_pos_bounds(s, id, i + 1);
    }
}

proof fn lemma_woken_pos_bounds(s: Seq<Woken>, id: u64, i: int)
    requires
        0 <= i <= s.len(),
    ensures
        i <= woken_pos(s, id, i) <= s.len(),
        woken_pos(s, id, i) < s.len() ==> s[woken_pos(s, id, i)].id == id,
    decreases s.len() - i,
{
    if i < s.len() && s[i].id != id {
        lemma_woken_pos_bounds(s, id, i + 1);
    }
}

proof fn lemma_wake_sizes(count: nat, waiters: Seq<Waiter>, batch: nat, now: u64)
    ensures
        wake_spec(count, waiters, batch, now).waiters.len() + wake_spec(count, waiters, batch, now).woken.len()
            == waiters.len(),
        wake_spec(count, waiters, batch, now).count <= count,
    decreases waiters.len(),
{
    if !(batch == 0 || waiters.len() == 0 || waiters[0].amount > count) {
        lemma_wake_sizes((count - waiters[0].amount) as nat, waiters.drop_first(), (batch - 1) as nat, now);
    }
}

proof fn lemma_waiter_pos_push(s: Seq<Waiter>, w: Waiter, i: int)
    requires
        0 <= i <= s.len(),
        waiter_pos(s, w.id, i) == s.len(),
    ensures
        waiter_pos(s.push(w), w.id, i) == s.len(),
    decreases s.len() - i,
{
    if i < s.len() {
        lemma_waiter_pos_push(s, w, i + 1);
    }
}

/// On an idle semaphore (nobody queued), producing `amount` permits that fit
/// under the maximum and at once consuming the same amount is served without
/// queueing and gives back exactly the state before, but for the one
/// zero-latency sample that the served consumer records.
pub proof fn lemma_produce_then_consume(s: SemView, amount: u64, batch: nat, now: u64, id: u64)
    requires
        s.count <= s.max,
        s.waiters.len() == 0,
        s.count + amount <= s.max,
    ensures
        consume_result(produce_spec(s, amount as nat, batch, now), amount as nat) == Ok::<bool, Error>(true),
        consume_spec(produce_spec(s, amount as nat, batch, now), id, amount) == (SemView {
            stats: merge_spec(s.stats, singleton_spec(0)),
            ..s
        }),
{
    let p = produce_spec(s, amount as nat, batch, now);
    assert(p.woken =~= s.woken);
    assert(p.waiters =~= s.waiters);
}

/// No operation takes the count out of `[0, max]` or overfills the wait
/// queue: producing, consuming and giving up all keep the invariant, so no
/// sequence of them, in any interleaving, can break it.
pub proof fn lemma_count_stays_bounded(s: SemView, amount: u64, batch: nat, now: u64, id: u64)
    requires
        s.count <= s.max,
        s.waiters.len() + s.woken.len() <= s.max_waiters,
    ensures
        produce_spec(s, amount as nat, batch, now).count <= s.max,
        produce_spec(s, amount as nat, batch, now).waiters.len() + produce_spec(
            s,
            amount as nat,
            batch,
            now,
        ).woken.len() <= s.max_waiters,
        consume_spec(s, id, amount).count <= s.max,
        consume_spec(s, id, amount).waiters.len() + consume_spec(s, id, amount).woken.len() <= s.max_waiters,
        cancel_spec(s, id).count <= s.max,
        cancel_spec(s, id).waiters.len() + cancel_spec(s, id).woken.len() <= s.max_waiters,
{
    lemma_wake_sizes(saturating_add(s.count, amount as nat, s.max), s.waiters, batch, now);
    lemma_waiter_pos_bounds(s.waiters, id, 0);
}

/// A consumer that asks for more than the maximum count can never be served:
/// it is queued, and when it gives up the result is `TimedOut` and the
/// semaphore is exactly as it was before the request.
pub proof fn lemma_unreachable_request_times_out(s: SemView, id: u64, amount: u64)
    requires
        s.count <= s.max,
        amount > s.max,
        s.waiters.len() + s.woken.len() < s.max_waiters,
        !still_queued(s, id),
    ensures
        consume_result(s, amount as nat) == Ok::<bool, Error>(false),
        still_queued(consume_spec(s, id, amount), id),
        cancel_spec(consume_spec(s, id, amount), id) == s,
{
    let q = consume_spec(s, id, amount);
    let w = Waiter { id, amount };
    lemma_waiter_pos_bounds(s.waiters, id, 0);
    lemma_waiter_pos_push(s.waiters, w, 0);
    assert(q.waiters == s.waiters.push(w));
    assert(q.waiters.remove(s.waiters.len() as int) =~= s.waiters);
}

/// A counting semaphore whose count stays within `[0, max]`, with room for at
/// most `max_waiters` blocked consumers, and which measures how long each
/// woken consumer took to resume.
pub struct Semaphore {
    count: u64,
    max: u64,
    max_waiters: usize,
    waiters: Vec<Waiter>,
    woken: Vec<Woken>,
    wake_stats: Distribution,
}

impl View for Semaphore {
    type V = SemView;

    closed spec fn view(&self) -> SemView {
        SemView {
            count: self.count as nat,
            max: self.max as nat,
            max_waiters: self.max_waiters as nat,
            waiters: self.waiters@,
            woken: self.woken@,
            stats: self.wake_stats@,
        }
    }
}

impl Semaphore {
    /// The semaphore's invariant: the count lies within `[0, max]` and the
    /// queued and woken-but-not-resumed consumers fit in the wait queue.
    pub open spec fn wf(&self) -> bool {
        &&& self@.count <= self@.max
        &&& self@.waiters.len() + self@.woken.len() <= self@.max_waiters
        &&& self.stats_wf()
    }

    /// The wake-latency accumulator is well formed.
    pub closed spec fn stats_wf(&self) -> bool {
        self.wake_stats.wf()
    }

    /// A semaphore holding `initial` permits out of at most `max`, with room
    /// for `max_waiters` blocked consumers.
    pub fn new(initial: u64, max: u64, max_waiters: usize) -> (r: Semaphore)
        requires
            initial <= max,
        ensures
            r.wf(),
            r@.count == initial,
            r@.max == max,
            r@.max_waiters == max_waiters,
            r@.waiters.len() == 0,
            r@.woken.len() == 0,
            r@.stats == empty_spec(),
    {
        Semaphore {
            count: initial,
            max,
            max_waiters,
            waiters: Vec::new(),
            woken: Vec::new(),
            wake_stats: Distribution::new(),
        }
    }

    /// Permits currently available.
    pub fn count(&self) -> (r: u64)
        ensures
            r == self@.count,
    {
        self.count
    }

    /// The largest count the semaphore holds.
    pub fn max(&self) -> (r: u64)
        ensures
            r == self@.max,
    {
        self.max
    }

    /// Number of wake latencies gathered since they were last collected.
    pub fn wake_count(&self) -> (r: u64)
        ensures
            r == self@.stats.count,
    {
        self.wake_stats.count()
    }

    /// Number of consumers queued and not yet woken.
    pub fn waiting(&self) -> (r: usize)
        ensures
            r == self@.waiters.len(),
    {
        self.waiters.len()
    }

    /// Adds `amount` permits (clamped at the maximum), then wakes in queue
    /// order up to `wake_batch` consumers whose requests the count now covers,
    /// noting `now` as the time each was woken. Returns how many it woke.
    pub fn produce(&mut self, amount: u64, wake_batch: usize, now: u64) -> (r: usize)
        requires
            old(self).wf(),
        ensures
            final(self).wf(),
            final(self)@ == produce_spec(old(self)@, amount as nat, wake_batch as nat, now),
            r == final(self)@.woken.len() - old(self)@.woken.len(),
    {
        if amount > self.max - self.count {
            self.count = self.max;
        } else {
            self.count = self.count + amount;
        }
        let ghost target = wake_spec(self.count as nat, self.waiters@, wake_batch as nat, now);
        let ghost old_woken = self.woken@;
        proof {
            lemma_wake_sizes(self.count as nat, self.waiters@, wake_batch as nat, now);
        }
        let mut n: usize = 0;
        while n < wake_batch && self.waiters.len() > 0 && self.waiters[0].amount <= self.count
            invariant
                n <= wake_batch,
                self.count <= self.max,
                self.max == old(self).max,
                self.max_waiters == old(self).max_waiters,
                self.wake_stats == old(self).wake_stats,
                self.waiters@.len() + self.woken@.len() == old(self).waiters@.len() + old(self).woken@.len(),
                self.woken@.len() == old_woken.len() + n,
                wake_spec(self.count as nat, self.waiters@, (wake_batch - n) as nat, now).count == target.count,
                wake_spec(self.count as nat, self.waiters@, (wake_batch - n) as nat, now).waiters
                    == target.waiters,
                self.woken@ + wake_spec(self.count as nat, self.waiters@, (wake_batch - n) as nat, now).woken
                    == old_woken + target.woken,
            decreases self.waiters@.len(),
        {
            let w = self.waiters.remove(0);
            let ghost before = self.woken@;
            let ghost rest = wake_spec(
                (self.count - w.amount) as nat,
                self.waiters@,
                (wake_batch - n - 1) as nat,
                now,
            );
            self.count = self.count - w.amount;
            self.woken.push(Woken { id: w.id, at: now });
            n = n + 1;
            assert(self.woken@ + rest.woken =~= before + (seq![Woken { id: w.id, at: now }] + rest.woken));
        }
        proof {
            lemma_wake_sizes(self.count as nat, self.waiters@, (wake_batch - n) as nat, now);
        }
        assert(self.woken@ =~= old_woken + target.woken);
        n
    }

    /// Consumer `id` asks for `amount` permits. When nobody is queued and the
    /// count covers the request the permits are taken and the result is
    /// `Ok(true)`, with a wake latency of zero recorded; otherwise the
    /// consumer is queued (`Ok(false)`) and must wait to be woken, or the
    /// queue is full and nothing changes.
    pub fn consume(&mut self, id: u64, amount: u64) -> (r: Result<bool, Error>)
        requires
            old(self).wf(),
            old(self)@.stats.count < u64::MAX,
        ensures
            final(self).wf(),
            r == consume_result(old(self)@, amount as nat),
            final(self)@ == consume_spec(old(self)@, id, amount),
    {
        if self.waiters.len() == 0 && amount <= self.count {
            self.count = self.count - amount;
            self.wake_stats.record(0);
            Ok(true)
        } else if self.waiters.len() + self.woken.len() < self.max_waiters {
            self.waiters.push(Waiter { id, amount });
            Ok(false)
        } else {
            Err(Error::CapacityExceeded)
        }
    }

    /// Consumer `id` resumes at time `now` after being woken: the time since
    /// its wake-up is recorded once, and it leaves the woken list. Returns
    /// `false`, changing nothing, when `id` was not woken.
    pub fn resume(&mut self, id: u64, now: u64) -> (r: bool)
        requires
            old(self).wf(),
            old(self)@.stats.count < u64::MAX,
        ensures
            final(self).wf(),
            r == (woken_pos(old(self)@.woken, id, 0) < old(self)@.woken.len()),
            !r ==> final(self)@ == old(self)@,
            r ==> {
                let p = woken_pos(old(self)@.woken, id, 0);
                &&& final(self)@.woken == old(self)@.woken.remove(p)
                &&& final(self)@.stats == merge_spec(
                    old(self)@.stats,
                    crate::stats::singleton_spec(latency(old(self)@.woken[p].at, now)),
                )
                &&& final(self)@.count == old(self)@.count
                &&& final(self)@.waiters == old(self)@.waiters
                &&& final(self)@.max == old(self)@.max
                &&& final(self)@.max_waiters == old(self)@.max_waiters
            },
    {
        let mut i: usize = 0;
        while i < self.woken.len() && self.woken[i].id != id
            invariant
                i <= self.woken@.len(),
                woken_pos(self.woken@, id, 0) == woken_pos(self.woken@, id, i as int),
            decreases self.woken@.len() - i,
        {
            i = i + 1;
        }
        proof {
            lemma_woken_pos_bounds(self.woken@, id, i as int);
        }
        if i == self.woken.len() {
            return false;
        }
        let w = self.woken.remove(i);
        let sample = if now >= w.at {
            now - w.at
        } else {
            0
        };
        self.wake_stats.record(sample);
        true
    }

    /// Consumer `id` gives up waiting. If it is still queued it leaves the
    /// queue and the result is `TimedOut`, with the count untouched; if a
    /// producer already woke it the permits are its own and the result is `Ok`.
    pub fn cancel(&mut self, id: u64) -> (r: Result<(), Error>)
        requires
            old(self).wf(),
        ensures
            final(self).wf(),
            final(self)@ == cancel_spec(old(self)@, id),
            r == (if still_queued(old(self)@, id) {
                Err::<(), Error>(Error::TimedOut)
            } else {
                Ok::<(), Error>(())
            }),
    {
        let mut i: usize = 0;
        while i < self.waiters.len() && self.waiters[i].id != id
            invariant
                i <= self.waiters@.len(),
                waiter_pos(self.waiters@, id, 0) == waiter_pos(self.waiters@, id, i as int),
            decreases self.waiters@.len() - i,
        {
            i = i + 1;
        }
        proof {
            lemma_waiter_pos_bounds(self.waiters@, id, i as int);
        }
        if i == self.waiters.len() {
            return Ok(());
        }
        self.waiters.remove(i);
        Err(Error::TimedOut)
    }

    /// Moves the wake latencies gathered so far into `out`, leaving this
    /// semaphore's accumulator empty, so that successive calls see disjoint
    /// windows.
    pub fn collect_wake_stats(&mut self, out: &mut Distribution)
        requires
            old(self).wf(),
            old(out).wf(),
            old(out)@.count + old(self)@.stats.count <= u64::MAX,
        ensures
            final(self).wf(),
            final(out).wf(),
            final(out)@ == merge_spec(old(out)@, old(self)@.stats),
            final(self)@ == (SemView { stats: empty_spec(), ..old(self)@ }),
    {
        let taken = self.wake_stats.take();
        out.merge(&taken);
    }
}

} // verus!
