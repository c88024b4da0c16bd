//! Repeated measurement rounds, and the decisions of the convergence driver.
use vstd::prelude::*;

use crate::clock::{duration_nanos, elapsed_nanos};
use crate::context::Context;

verus! {

/// Default minimum wall time of a benchmark: one second, in nanoseconds.
pub const DEFAULT_MIN_TIME_NS: u64 = 1000000000;

/// Default minimum number of benchmark rounds.
pub const DEFAULT_MIN_ITERATIONS: usize = 3;

/// Whether a benchmark that has run `iterations` rounds over `elapsed_ns`
/// nanoseconds has to run another: until both minimums are met.
pub open spec fn more_rounds_spec(iterations: nat, min_iterations: nat, elapsed_ns: nat, min_time_ns: nat) -> bool {
    iterations < min_iterations || elapsed_ns < min_time_ns
}

/// Whether a benchmark that has run `iterations` rounds over `elapsed_ns`
/// nanoseconds has to run another.
pub fn more_rounds(iterations: usize, min_iterations: usize, elapsed_ns: u64, min_time_ns: u64) -> (r: bool)
    ensures
        r == more_rounds_spec(iterations as nat, min_iterations as nat, elapsed_ns as nat, min_time_ns as nat),
{
    iterations < min_iterations || elapsed_ns < min_time_ns
}

/// The minimum number of rounds a benchmark runs for the given setting.
pub open spec fn min_rounds_spec(min_iterations: Option<usize>) -> nat {
    match min_iterations {
        Some(n) => n as nat,
        None => DEFAULT_MIN_ITERATIONS as nat,
    }
}

/// Runs `measure` in rounds, stopping the context's workers before each,
/// as long as `more_rounds` asks for another (at least `min_iterations`
/// rounds, default 3, and at least `min_time`, default one second, with one
/// round in any case), and returns what the last round measured together
/// with the number of rounds run.
pub fn benchmark_rounds<F, T>(
    ctx: &mut Context,
    measure: F,
    min_time: Option<core::time::Duration>,
    min_iterations: Option<usize>,
) -> (r: (T, usize)) where F: Fn() -> T
    requires
        old(ctx).wf(),
        measure.requires(()),
        forall|x: T| #[trigger] measure.ensures((), x) ==> measure.requires(()),
    ensures
        final(ctx).wf(),
        !final(ctx).running_spec(),
        final(ctx).processes() == old(ctx).processes(),
        measure.ensures((), r.0),
        r.1 >= 1,
        r.1 >= min_rounds_spec(min_iterations),
{
    let min_time_ns = match min_time {
        Some(d) => duration_nanos(&d),
        None => DEFAULT_MIN_TIME_NS,
    };
    let min_iterations = match min_iterations {
        Some(n) => n,
        None => DEFAULT_MIN_ITERATIONS,
    };
    let start = std::time::Instant::now();
    ctx.stop();
    let mut last = measure();
    let mut iterations: usize = 1;
    loop
        invariant
            ctx.wf(),
            !ctx.running_spec(),
            ctx.processes() == old(ctx).processes(),
            measure.ensures((), last),
            forall|x: T| #[trigger] measure.ensures((), x) ==> measure.requires(()),
            iterations >= 1,
        ensures
            iterations >= min_iterations,
        decreases usize::MAX - iterations,
    {
        let elapsed = elapsed_nanos(&start);
        if !more_rounds(iterations, min_iterations, elapsed, min_time_ns) || iterations == usize::MAX {
            break;
        }
        ctx.stop();
        last = measure();
        iterations = iterations + 1;
    }
    (last, iterations)
}

/// Runs `measure` in rounds as `benchmark_rounds` does and returns what the
/// last round measured.
pub fn benchmark<F, T>(
    ctx: &mut Context,
    measure: F,
    min_time: Option<core::time::Duration>,
    min_iterations: Option<usize>,
) -> (r: T) where F: Fn() -> T
    requires
        old(ctx).wf(),
        measure.requires(()),
        forall|x: T| #[trigger] measure.ensures((), x) ==> measure.requires(()),
    ensures
        final(ctx).wf(),
        !final(ctx).running_spec(),
        final(ctx).processes() == old(ctx).processes(),
        measure.ensures((), r),
{
    benchmark_rounds(ctx, measure, min_time, min_iterations).0
}

/// `benchmark` with the default minimum time and number of rounds.
pub fn benchmark_default<F, T>(ctx: &mut Context, measure: F) -> (r: T) where F: Fn() -> T
    requires
        old(ctx).wf(),
        measure.requires(()),
        forall|x: T| #[trigger] measure.ensures((), x) ==> measure.requires(()),
    ensures
        final(ctx).wf(),
        !final(ctx).running_spec(),
        final(ctx).processes() == old(ctx).processes(),
        measure.ensures((), r),
{
    benchmark(ctx, measure, None, None)
}

/// Wall time that one measurement round should take: 100 milliseconds.
pub const ROUND_TARGET_NS: u64 = 100000000;

/// Smallest difference between two metric values, in millionths, below
/// which they count as equal whatever their size.
pub const ABS_TOLERANCE: i64 = 1000;

/// What the convergence driver does next.
#[derive(Debug, Clone, Copy, PartialEq, Eq, Structural)]
pub enum Step {
    /// Run one more round with this budget.
    Run(u64),
    /// Stop and report this value.
    Done(i64),
}

/// Two successive metric values (in millionths) are stable when they differ
/// by at most one percent of the later one, or by at most `ABS_TOLERANCE`.
pub open spec fn stable_spec(prev: int, last: int) -> bool {
    let diff = if last >= prev { last - prev } else { prev - last };
    let mag = if last >= 0 { last } else { -last };
    diff * 100 <= mag || diff <= ABS_TOLERANCE
}

/// The next round's budget: doubled when a round took under half the target
/// time, halved (but never below one) when it took over twice the target,
/// kept otherwise.
pub open spec fn next_iters_spec(iters: u64, round_ns: u64) -> u64 {
    if round_ns < ROUND_TARGET_NS / 2 {
        if iters > u64::MAX / 2 {
            u64::MAX
        } else {
            (2 * iters) as u64
        }
    } else if round_ns > 2 * ROUND_TARGET_NS {
        if iters / 2 == 0 {
            1
        } else {
            (iters / 2) as u64
        }
    } else {
        iters
    }
}

/// The driver's decision after a round that measured `value`, took
/// `round_ns`, and ended `elapsed_ns` after the driver began.
pub open spec fn step_spec(
    c: ConvergeState,
    value: i64,
    round_ns: u64,
    elapsed_ns: u64,
) -> Step {
    if elapsed_ns >= c.max_time_ns {
        Step::Done(value)
    } else if elapsed_ns >= c.min_time_ns && c.last.is_some() && stable_spec(c.last.unwrap() as int, value as int) {
        Step::Done(value)
    } else {
        Step::Run(next_iters_spec(c.iters, round_ns))
    }
}

/// The abstract state of the convergence driver.
pub struct ConvergeState {
    pub min_time_ns: u64,
    pub max_time_ns: u64,
    pub iters: u64,
    pub last: Option<i64>,
}

fn stable(prev: i64, last: i64) -> (r: bool)
    ensures
        r == stable_spec(prev as int, last as int),
{
    let p = prev as i128;
    let l = last as i128;
    let diff: i128 = if l >= p {
        l - p
    } else {
        p - l
    };
    let mag: i128 = if l >= 0 {
        l
    } else {
        -l
    };
    diff * 100 <= mag || diff <= ABS_TOLERANCE as i128
}

fn next_iters(iters: u64, round_ns: u64) -> (r: u64)
    ensures
        r == next_iters_spec(iters, round_ns),
{
    if round_ns < ROUND_TARGET_NS / 2 {
        if iters > u64::MAX / 2 {
            u64::MAX
        } else {
            2 * iters
        }
    } else if round_ns > 2 * ROUND_TARGET_NS {
        if iters / 2 == 0 {
            1
        } else {
            iters / 2
        }
    } else {
        iters
    }
}

/// The decisions of the convergence driver. The caller runs each round,
/// times it, and reports the metric (in millionths) with `observe`; the
/// driver answers with the next budget or with the value to report.
pub struct Converge {
    min_time_ns: u64,
    max_time_ns: u64,
    iters: u64,
    last: Option<i64>,
}

impl View for Converge {
    type V = ConvergeState;

    closed spec fn view(&self) -> ConvergeState {
        ConvergeState {
            min_time_ns: self.min_time_ns,
            max_time_ns: self.max_time_ns,
            iters: self.iters,
            last: self.last,
        }
    }
}

impl Converge {
    /// A driver that stops once `min_time_ns` has passed and two successive
    /// values are stable, and in any case once `max_time_ns` has passed.
    /// The first round runs one iteration.
    pub fn new(min_time_ns: u64, max_time_ns: u64) -> (r: Converge)
        ensures
            r@ == (ConvergeState { min_time_ns, max_time_ns, iters: 1, last: None }),
    {
        Converge { min_time_ns, max_time_ns, iters: 1, last: None }
    }

    /// The budget of the next round.
    pub fn iters(&self) -> (r: u64)
        ensures
            r == self@.iters,
    {
        self.iters
    }

    /// The value of the last round, if one has run.
    pub fn last(&self) -> (r: Option<i64>)
        ensures
            r == self@.last,
    {
        self.last
    }

    /// Takes in the outcome of a round and decides what comes next. Once the
    /// maximum time has passed the driver always stops, and whenever it stops
    /// it reports the value of this, the final, round.
    pub fn observe(&mut self, value: i64, round_ns: u64, elapsed_ns: u64) -> (r: Step)
        ensures
            r == step_spec(old(self)@, value, round_ns, elapsed_ns),
            elapsed_ns >= old(self)@.max_time_ns ==> r == Step::Done(value),
            r is Done ==> r == Step::Done(value),
            final(self)@.last == Some(value),
            final(self)@.min_time_ns == old(self)@.min_time_ns,
            final(self)@.max_time_ns == old(self)@.max_time_ns,
            r is Run ==> final(self)@.iters == r->Run_0,
            r is Done ==> final(self)@.iters == old(self)@.iters,
    {
        let prev = self.last;
        self.last = Some(value);
        if elapsed_ns >= self.max_time_ns {
            return Step::Done(value);
        }
        if elapsed_ns >= self.min_time_ns {
            if let Some(p) = prev {
                if stable(p, value) {
                    return Step::Done(value);
                }
            }
        }
        self.iters = next_iters(self.iters, round_ns);
        Step::Run(self.iters)
    }
}

} // verus!
