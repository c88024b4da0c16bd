//! An online accumulator of duration samples, kept as a log2 histogram.
use vstd::prelude::*;

verus! {

/// Number of histogram buckets: one for zero and one per bit length of a `u64`.
pub const BUCKETS: usize = 65;

/// Two to the power `n`.
pub open spec fn pow2(n: nat) -> nat
    decreases n,
{
    if n == 0 {
        1
    } else {
        2 * pow2((n - 1) as nat)
    }
}

/// The bucket of a sample: its bit length (zero for zero).
pub open spec fn bucket_of(v: nat) -> nat
    decreases v,
{
    if v == 0 {
        0
    } else {
        1 + bucket_of(v / 2)
    }
}

/// The largest sample that falls in bucket `b`.
pub open spec fn bucket_upper(b: nat) -> nat {
    (pow2(b) - 1) as nat
}

/// The abstract content of a distribution: how many samples, their sum, and
/// how many fell in each bucket.
pub struct DistView {
    pub count: nat,
    pub sum: nat,
    pub buckets: Seq<nat>,
}

/// The distribution holding no sample.
pub open spec fn empty_spec() -> DistView {
    DistView { count: 0, sum: 0, buckets: Seq::new(BUCKETS as nat, |i: int| 0nat) }
}

/// The distribution holding the single sample `v`.
pub open spec fn singleton_spec(v: nat) -> DistView {
    DistView {
        count: 1,
        sum: v,
        buckets: Seq::new(BUCKETS as nat, |i: int| if i == bucket_of(v) { 1nat } else { 0nat }),
    }
}

/// The distribution holding the samples of both `a` and `b`.
pub open spec fn merge_spec(a: DistView, b: DistView) -> DistView {
    DistView {
        count: a.count + b.count,
        sum: a.sum + b.sum,
        buckets: Seq::new(BUCKETS as nat, |i: int| a.buckets[i] + b.buckets[i]),
    }
}

/// How many samples fell in the first `n` buckets.
pub open spec fn cumulative(buckets: Seq<nat>, n: int) -> nat
    decreases n,
{
    if n <= 0 {
        0
    } else {
        cumulative(buckets, n - 1) + buckets[n - 1]
    }
}

/// The first bucket at or after `b` by which at least `p` percent of the
/// `count` samples have been seen; the last bucket if none is.
pub open spec fn percentile_bucket(buckets: Seq<nat>, count: nat, p: nat, b: nat) -> nat
    decreases BUCKETS - b,
{
    if b + 1 >= BUCKETS {
        (BUCKETS - 1) as nat
    } else if cumulative(buckets, (b + 1) as int) * 100 >= p * count {
        b
    } else {
        percentile_bucket(buckets, count, p, b + 1)
    }
}

proof fn lemma_pow2_mono(n: nat, m: nat)
    requires
        n <= m,
    ensures
        1 <= pow2(n) <= pow2(m),
    decreases m,
{
    if m > 0 && n < m {
        lemma_pow2_mono(n, (m - 1) as nat);
    } else if m > 0 {
        lemma_pow2_mono((n - 1) as nat, (m - 1) as nat);
    }
}

proof fn lemma_pow2_bounds(n: nat)
    ensures
        pow2(n) >= 1,
        n <= 64 ==> pow2(n) <= 0x1_0000_0000_0000_0000,
        pow2(64) == 0x1_0000_0000_0000_0000,
{
    reveal_with_fuel(pow2, 65);
    if n <= 64 {
        lemma_pow2_mono(n, 64);
    } else {
        lemma_pow2_mono(0, n);
    }
}

proof fn lemma_bucket_of_bound(v: nat, n: nat)
    requires
        v < pow2(n),
    ensures
        bucket_of(v) <= n,
    decreases n,
{
    if v > 0 {
        if n == 0 {
            assert(pow2(0) == 1);
        } else {
            lemma_bucket_of_bound(v / 2, (n - 1) as nat);
        }
    }
}

/// Merging is commutative: the order of the two operands does not matter.
pub proof fn lemma_merge_commutative(a: DistView, b: DistView)
    ensures
        merge_spec(a, b) == merge_spec(b, a),
{
    assert(merge_spec(a, b).buckets =~= merge_spec(b, a).buckets);
}

/// Merging is associative: how three distributions are grouped does not matter.
pub proof fn lemma_merge_associative(a: DistView, b: DistView, c: DistView)
    ensures
        merge_spec(a, merge_spec(b, c)) == merge_spec(merge_spec(a, b), c),
{
    assert(merge_spec(a, merge_spec(b, c)).buckets =~= merge_spec(merge_spec(a, b), c).buckets);
}

/// An accumulator of duration samples in nanoseconds. It answers count, mean
/// and percentile queries and merges with another one.
pub struct Distribution {
    count: u64,
    sum: u128,
    buckets: Vec<u64>,
}

impl View for Distribution {
    type V = DistView;

    closed spec fn view(&self) -> DistView {
        DistView {
            count: self.count as nat,
            sum: self.sum as nat,
            buckets: Seq::new(self.buckets@.len(), |i: int| self.buckets@[i] as nat),
        }
    }
}

fn bucket_index(v: u64) -> (r: usize)
    ensures
        r == bucket_of(v as nat),
        r < BUCKETS,
{
    proof {
        lemma_pow2_bounds(64);
        lemma_bucket_of_bound(v as nat, 64);
    }
    let mut x: u64 = v;
    let mut b: usize = 0;
    while x > 0
        invariant
            b + bucket_of(x as nat) == bucket_of(v as nat),
            bucket_of(v as nat) <= 64,
        decreases x,
    {
        x = x / 2;
        b = b + 1;
    }
    b
}

impl Default for Distribution {
    /// An empty accumulator.
    fn default() -> (r: Self)
        ensures
            r.wf(),
            r@ == empty_spec(),
    {
        Distribution::new()
    }
}

impl Distribution {
    /// Internal consistency: one counter per bucket, no bucket above the total
    /// count, and a sum that `count` samples of a `u64` can reach.
    pub closed spec fn wf(&self) -> bool {
        &&& self.buckets@.len() == BUCKETS
        &&& forall|i: int| 0 <= i < BUCKETS ==> self.buckets@[i] <= self.count
        &&& self.sum <= self.count as int * 0xffff_ffff_ffff_ffff
    }

    /// Creates an empty accumulator.
    pub fn new() -> (r: Self)
        ensures
            r.wf(),
            r@ == empty_spec(),
    {
        let mut buckets: Vec<u64> = Vec::new();
        let mut i: usize = 0;
        while i < BUCKETS
            invariant
                i <= BUCKETS,
                buckets@.len() == i,
                forall|j: int| 0 <= j < i ==> buckets@[j] == 0,
            decreases BUCKETS - i,
        {
            buckets.push(0);
            i = i + 1;
        }
        let r = Distribution { count: 0, sum: 0, buckets };
        assert(r@.buckets =~= empty_spec().buckets);
        r
    }

    /// Number of samples recorded.
    pub fn count(&self) -> (r: u64)
        ensures
            r == self@.count,
    {
        self.count
    }

    /// Sum of the samples recorded, in nanoseconds.
    pub fn sum(&self) -> (r: u128)
        ensures
            r == self@.sum,
    {
        self.sum
    }

    /// Adds one sample. Recording is merging with a one-sample distribution.
    pub fn record(&mut self, sample: u64)
        requires
            old(self).wf(),
            old(self)@.count < u64::MAX,
        ensures
            final(self).wf(),
            final(self)@ == merge_spec(old(self)@, singleton_spec(sample as nat)),
    {
        let b = bucket_index(sample);
        let ghost old_buckets = self.buckets@;
        let c = self.buckets[b];
        self.buckets.set(b, c + 1);
        proof {
            assert(self.sum + sample <= (self.count + 1) as int * 0xffff_ffff_ffff_ffff) by (nonlinear_arith)
                requires
                    self.sum <= self.count as int * 0xffff_ffff_ffff_ffff,
                    sample <= 0xffff_ffff_ffff_ffff,
            ;
        }
        self.sum = self.sum + sample as u128;
        self.count = self.count + 1;
        assert(self@.buckets =~= merge_spec(old(self)@, singleton_spec(sample as nat)).buckets);
    }

    /// Adds every sample of `other` to this distribution.
    pub fn merge(&mut self, other: &Distribution)
        requires
            old(self).wf(),
            other.wf(),
            old(self)@.count + other@.count <= u64::MAX,
        ensures
            final(self).wf(),
            final(self)@ == merge_spec(old(self)@, other@),
    {
        let ghost old_self = self@;
        let mut i: usize = 0;
        while i < BUCKETS
            invariant
                i <= BUCKETS,
                self.buckets@.len() == BUCKETS,
                other.wf(),
                self.count == old(self).count,
                self.sum == old(self).sum,
                self.count + other.count <= u64::MAX,
                forall|j: int| 0 <= j < i ==> self.buckets@[j] == old(self).buckets@[j] + other.buckets@[j],
                forall|j: int| i <= j < BUCKETS ==> self.buckets@[j] == old(self).buckets@[j],
                forall|j: int| 0 <= j < BUCKETS ==> old(self).buckets@[j] <= old(self).count,
            decreases BUCKETS - i,
        {
            let x = self.buckets[i];
            let y = other.buckets[i];
            self.buckets.set(i, x + y);
            i = i + 1;
        }
        proof {
            assert(self.sum + other.sum <= (self.count + other.count) as int * 0xffff_ffff_ffff_ffff) by (nonlinear_arith)
                requires
                    self.sum <= self.count as int * 0xffff_ffff_ffff_ffff,
                    other.sum <= other.count as int * 0xffff_ffff_ffff_ffff,
            ;
        }
        self.sum = self.sum + other.sum;
        self.count = self.count + other.count;
        assert(self@.buckets =~= merge_spec(old_self, other@).buckets);
    }

    /// Empties the distribution and returns what it held.
    pub fn take(&mut self) -> (r: Distribution)
        requires
            old(self).wf(),
        ensures
            final(self).wf(),
            final(self)@ == empty_spec(),
            r.wf(),
            r@ == old(self)@,
    {
        let mut r = Distribution::new();
        std::mem::swap(self, &mut r);
        r
    }

    /// Mean of the samples, rounded down; `None` when there is none.
    pub fn mean(&self) -> (r: Option<u64>)
        requires
            self.wf(),
        ensures
            self@.count == 0 ==> r is None,
            self@.count > 0 ==> r == Some((self@.sum / self@.count) as u64),
    {
        if self.count == 0 {
            None
        } else {
            proof {
                assert((self.sum as int) / (self.count as int) <= 0xffff_ffff_ffff_ffff) by (nonlinear_arith)
                    requires
                        self.sum <= self.count as int * 0xffff_ffff_ffff_ffff,
                        self.count > 0,
                ;
            }
            Some((self.sum / (self.count as u128)) as u64)
        }
    }

    /// The upper edge of the first bucket by which `p` percent of the samples
    /// have been seen; `None` when there is no sample.
    pub fn percentile(&self, p: u64) -> (r: Option<u64>)
        requires
            self.wf(),
            p <= 100,
        ensures
            self@.count == 0 ==> r is None,
            self@.count > 0 ==> r == Some(
                bucket_upper(percentile_bucket(self@.buckets, self@.count, p as nat, 0)) as u64,
            ),
    {
        if self.count == 0 {
            return None;
        }
        proof {
            assert(p * self.count <= 100 * 0xffff_ffff_ffff_ffff) by (nonlinear_arith)
                requires
                    p <= 100,
                    self.count <= 0xffff_ffff_ffff_ffff,
            ;
        }
        let threshold: u128 = (p as u128) * (self.count as u128);
        let mut cum: u128 = 0;
        let mut b: usize = 0;
        let mut upper_plus_one: u128 = 1;
        while b + 1 < BUCKETS && (cum + self.buckets[b] as u128) * 100 < threshold
            invariant
                self.wf(),
                self.count > 0,
                p <= 100,
                threshold == p * self.count,
                b < BUCKETS,
                cum == cumulative(self@.buckets, b as int),
                cum <= b * 0xffff_ffff_ffff_ffff,
                upper_plus_one == pow2(b as nat),
                percentile_bucket(self@.buckets, self@.count, p as nat, 0)
                    == percentile_bucket(self@.buckets, self@.count, p as nat, b as nat),
            decreases BUCKETS - b,
        {
            proof {
                lemma_pow2_bounds((b + 1) as nat);
            }
            cum = cum + self.buckets[b] as u128;
            upper_plus_one = upper_plus_one * 2;
            b = b + 1;
        }
        proof {
            lemma_pow2_bounds(b as nat);
        }
        Some((upper_plus_one - 1) as u64)
    }
}

} // verus!
