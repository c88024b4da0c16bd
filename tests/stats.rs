use schtest::stats::Distribution;

fn dist(samples: &[u64]) -> Distribution {
    let mut d = Distribution::new();
    for &s in samples {
        d.record(s);
    }
    d
}

fn merged(a: &Distribution, b: &Distribution) -> Distribution {
    let mut r = Distribution::new();
    r.merge(a);
    r.merge(b);
    r
}

fn same(a: &Distribution, b: &Distribution) {
    assert_eq!(a.count(), b.count());
    assert_eq!(a.sum(), b.sum());
    assert_eq!(a.mean(), b.mean());
    for p in [0u64, 10, 50, 90, 99, 100] {
        assert_eq!(a.percentile(p), b.percentile(p));
    }
}

#[test]
fn empty_distribution() {
    let d = Distribution::new();
    assert_eq!(d.count(), 0);
    assert_eq!(d.sum(), 0);
    assert_eq!(d.mean(), None);
    assert_eq!(d.percentile(50), None);
}

#[test]
fn record_and_query() {
    let d = dist(&[0, 1, 2, 3, 100]);
    assert_eq!(d.count(), 5);
    assert_eq!(d.sum(), 106);
    assert_eq!(d.mean(), Some(21));
    assert_eq!(d.percentile(0), Some(0));
    assert_eq!(d.percentile(20), Some(0));
    assert_eq!(d.percentile(40), Some(1));
    assert_eq!(d.percentile(80), Some(3));
    assert_eq!(d.percentile(100), Some(127));
}

#[test]
fn largest_sample() {
    let d = dist(&[u64::MAX, u64::MAX]);
    assert_eq!(d.sum(), 2 * (u64::MAX as u128));
    assert_eq!(d.mean(), Some(u64::MAX));
    assert_eq!(d.percentile(50), Some(u64::MAX));
}

#[test]
fn merge_is_commutative() {
    let a = dist(&[5, 900, 17]);
    let b = dist(&[1_000_000, 3]);
    same(&merged(&a, &b), &merged(&b, &a));
}

#[test]
fn merge_is_associative() {
    let a = dist(&[5, 900, 17]);
    let b = dist(&[1_000_000, 3]);
    let c = dist(&[64, 65, 66, 67]);
    let left = merged(&a, &merged(&b, &c));
    let right = merged(&merged(&a, &b), &c);
    same(&left, &right);
    assert_eq!(left.count(), 9);
}

#[test]
fn record_is_merge_with_singleton() {
    let mut a = dist(&[10, 20]);
    let b = dist(&[10, 20]);
    a.record(4000);
    same(&a, &merged(&b, &dist(&[4000])));
}

#[test]
fn take_empties() {
    let mut d = dist(&[1, 2, 3]);
    let t = d.take();
    assert_eq!(t.count(), 3);
    assert_eq!(d.count(), 0);
}

#[test]
fn default_is_empty() {
    let d = Distribution::default();
    assert_eq!(d.count(), 0);
    assert_eq!(d.mean(), None);
}
