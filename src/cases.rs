//! The computations behind the built-in test and benchmark cases.
use vstd::prelude::*;

use crate::constraints::{installed_name, ConstraintError, Constraints, Topology};
use crate::error::Error;
use crate::semaphore::Semaphore;
use crate::stats::{empty_spec, merge_spec, Distribution};

verus! {

/// A registered test case: its name, its body, and what the machine must
/// offer for it to run.
pub struct Test<F> {
    pub name: &'static str,
    pub test_fn: F,
    pub constraints: Option<Constraints>,
}

/// A registered benchmark: its name, its body, and what the machine must
/// offer for it to run.
pub struct Benchmark<F> {
    pub name: &'static str,
    pub test_fn: F,
    pub constraints: Option<Constraints>,
}

/// Whether a case with these constraints may run on the machine: always
/// without constraints, otherwise as the constraints' check decides.
pub open spec fn may_run_spec(
    constraints: Option<Constraints>,
    topology: Topology,
    installed: Option<String>,
) -> Result<(), ConstraintError> {
    match constraints {
        None => Ok(()),
        Some(c) => c.check_spec(topology, installed_name(installed)),
    }
}

fn may_run(
    constraints: &Option<Constraints>,
    topology: &Topology,
    installed: &Option<String>,
) -> (r: Result<(), ConstraintError>)
    ensures
        r == may_run_spec(*constraints, *topology, *installed),
{
    match constraints {
        None => Ok(()),
        Some(c) => c.check(topology, installed),
    }
}

impl<F> Test<F> {
    /// Whether the test may run on a machine with this topology and this
    /// installed scheduler.
    pub fn may_run(&self, topology: &Topology, installed: &Option<String>) -> (r: Result<(), ConstraintError>)
        ensures
            r == may_run_spec(self.constraints, *topology, *installed),
    {
        may_run(&self.constraints, topology, installed)
    }
}

impl<F> Benchmark<F> {
    /// Whether the benchmark may run on a machine with this topology and
    /// this installed scheduler.
    pub fn may_run(&self, topology: &Topology, installed: &Option<String>) -> (r: Result<(), ConstraintError>)
        ensures
            r == may_run_spec(self.constraints, *topology, *installed),
    {
        may_run(&self.constraints, topology, installed)
    }
}

/// One in millionths: the scale of ratios reported by the cases.
pub const PPM: u64 = 1000000;

/// Sum of the values of `s`.
pub open spec fn seq_sum(s: Seq<u64>) -> nat
    decreases s.len(),
{
    if s.len() == 0 {
        0
    } else {
        seq_sum(s.drop_last()) + s.last() as nat
    }
}

/// Mean of the values of `s`, rounded down; zero for no value.
pub open spec fn mean_spec(s: Seq<u64>) -> nat {
    if s.len() == 0 {
        0
    } else {
        seq_sum(s) / s.len()
    }
}

/// The smaller of two means over the larger, in millionths: one million
/// when both groups got the same time, down to zero when one got none. A
/// round in which neither group got any time measured nothing and scores
/// zero, so that it never passes for fair.
pub open spec fn fairness_spec(a: Seq<u64>, f: Seq<u64>) -> nat {
    let x = mean_spec(a);
    let y = mean_spec(f);
    if x == 0 && y == 0 {
        0
    } else if x <= y {
        (x * PPM as nat / y) as nat
    } else {
        (y * PPM as nat / x) as nat
    }
}

/// How many of the cores `0..n` occur among the sampled core ids `seen`.
pub open spec fn covered_count(seen: Seq<usize>, n: nat) -> nat
    decreases n,
{
    if n == 0 {
        0
    } else {
        covered_count(seen, (n - 1) as nat) + if seen.contains((n - 1) as usize) {
            1nat
        } else {
            0nat
        }
    }
}

/// The share of the `n_cores` physical cores that the samples cover, in
/// millionths; zero when the workers migrated during the round, or when
/// there is no core.
pub open spec fn spread_spec(seen: Seq<usize>, n_cores: nat, migrations: nat) -> nat {
    if migrations > 0 || n_cores == 0 {
        0
    } else {
        covered_count(seen, n_cores) * PPM as nat / n_cores
    }
}

proof fn lemma_covered_count_bound(seen: Seq<usize>, n: nat)
    ensures
        covered_count(seen, n) <= n,
    decreases n,
{
    if n > 0 {
        lemma_covered_count_bound(seen, (n - 1) as nat);
    }
}

/// How well spinners spread over physical cores: `seen` holds the physical
/// core each spinner was observed on at each sample.
pub fn spread_ratio(seen: &Vec<usize>, n_cores: usize, migrations: u64) -> (r: u64)
    ensures
        r == spread_spec(seen@, n_cores as nat, migrations as nat),
        r <= PPM,
{
    if migrations > 0 || n_cores == 0 {
        return 0;
    }
    let mut flags: Vec<bool> = Vec::new();
    let mut c: usize = 0;
    while c < n_cores
        invariant
            c <= n_cores,
            flags@.len() == c,
            forall|k: int| 0 <= k < c ==> !flags@[k],
        decreases n_cores - c,
    {
        flags.push(false);
        c = c + 1;
    }
    let mut i: usize = 0;
    while i < seen.len()
        invariant
            i <= seen@.len(),
            flags@.len() == n_cores,
            forall|k: int| 0 <= k < n_cores ==> flags@[k] == seen@.subrange(0, i as int).contains(k as usize),
        decreases seen@.len() - i,
    {
        let s = seen[i];
        proof {
            let prev = seen@.subrange(0, i as int);
            let next = seen@.subrange(0, i + 1);
            assert(next =~= prev.push(s));
            assert forall|k: int| 0 <= k < n_cores implies #[trigger] next.contains(k as usize) == (prev.contains(
                k as usize,
            ) || s == k as usize) by {
                if prev.contains(k as usize) {
                    let j = choose|j: int| 0 <= j < prev.len() && prev[j] == k as usize;
                    assert(next[j] == k as usize);
                }
                if s == k as usize {
                    assert(next[i as int] == s);
                }
                if next.contains(k as usize) {
                    let j = choose|j: int| 0 <= j < next.len() && next[j] == k as usize;
                    if j < i {
                        assert(prev[j] == k as usize);
                    }
                }
            }
        }
        if s < n_cores {
            flags.set(s, true);
        }
        i = i + 1;
    }
    assert(seen@.subrange(0, seen@.len() as int) =~= seen@);
    let mut count: usize = 0;
    let mut k: usize = 0;
    while k < n_cores
        invariant
            k <= n_cores,
            flags@.len() == n_cores,
            forall|j: int| 0 <= j < n_cores ==> flags@[j] == seen@.contains(j as usize),
            count == covered_count(seen@, k as nat),
            count <= k,
        decreases n_cores - k,
    {
        if flags[k] {
            count = count + 1;
        }
        k = k + 1;
    }
    proof {
        assert((count as int) * (PPM as int) / (n_cores as int) <= PPM as int) by (nonlinear_arith)
            requires
                count <= n_cores,
                n_cores > 0,
        ;
    }
    ((count as u128) * (PPM as u128) / (n_cores as u128)) as u64
}

/// The case that checks the framework itself runs: it always passes.
pub fn self_test() -> (r: Result<(), Error>)
    ensures
        r is Ok,
{
    Ok(())
}

fn mean(v: &Vec<u64>) -> (r: u64)
    ensures
        r == mean_spec(v@),
{
    let mut sum: u128 = 0;
    let mut i: usize = 0;
    while i < v.len()
        invariant
            i <= v@.len(),
            sum == seq_sum(v@.subrange(0, i as int)),
            sum <= i * 0xffff_ffff_ffff_ffff,
        decreases v@.len() - i,
    {
        proof {
            assert(v@.subrange(0, i + 1).drop_last() =~= v@.subrange(0, i as int));
        }
        sum = sum + v[i] as u128;
        i = i + 1;
    }
    assert(v@.subrange(0, v@.len() as int) =~= v@);
    if v.len() == 0 {
        return 0;
    }
    proof {
        assert((sum as int) / (v@.len() as int) <= 0xffff_ffff_ffff_ffff) by (nonlinear_arith)
            requires
                sum <= v@.len() * 0xffff_ffff_ffff_ffff,
                v@.len() > 0,
        ;
    }
    (sum / (v.len() as u128)) as u64
}

/// How evenly CPU time was shared between workers pinned to a CPU and
/// floating workers: the smaller mean time over the larger, in millionths.
pub fn fairness_ratio(affinitized: &Vec<u64>, floating: &Vec<u64>) -> (r: u64)
    ensures
        r == fairness_spec(affinitized@, floating@),
        r <= PPM,
{
    let x = mean(affinitized);
    let y = mean(floating);
    if x == 0 && y == 0 {
        return 0;
    }
    let (small, large) = if x <= y {
        (x, y)
    } else {
        (y, x)
    };
    proof {
        assert((small as int) * (PPM as int) / (large as int) <= PPM as int) by (nonlinear_arith)
            requires
                small <= large,
                large > 0,
        ;
    }
    ((small as u128) * (PPM as u128) / (large as u128)) as u64
}

/// The ping-pong benchmark's measurement: the wake latencies of both
/// semaphores of the pair, taken out of them into one distribution.
pub fn ping_pong_wake_stats(sem1: &mut Semaphore, sem2: &mut Semaphore) -> (r: Distribution)
    requires
        old(sem1).wf(),
        old(sem2).wf(),
        old(sem1)@.stats.count + old(sem2)@.stats.count <= u64::MAX,
    ensures
        final(sem1).wf(),
        final(sem2).wf(),
        r.wf(),
        r@ == merge_spec(merge_spec(empty_spec(), old(sem1)@.stats), old(sem2)@.stats),
        r@.count == old(sem1)@.stats.count + old(sem2)@.stats.count,
        final(sem1)@.stats == empty_spec(),
        final(sem2)@.stats == empty_spec(),
        final(sem1)@.count == old(sem1)@.count,
        final(sem2)@.count == old(sem2)@.count,
{
    let mut d = Distribution::new();
    sem1.collect_wake_stats(&mut d);
    sem2.collect_wake_stats(&mut d);
    d
}

} // verus!
