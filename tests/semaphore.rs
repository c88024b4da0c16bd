use schtest::cases::ping_pong_wake_stats;
use schtest::error::Error;
use schtest::semaphore::Semaphore;
use schtest::stats::Distribution;

#[test]
fn produce_then_consume_restores_count() {
    for initial in 0..=4u64 {
        for amount in 0..=(4 - initial) {
            let mut s = Semaphore::new(initial, 4, 8);
            assert_eq!(s.produce(amount, 1, 0), 0);
            assert_eq!(s.consume(1, amount), Ok(true));
            assert_eq!(s.count(), initial);
            assert_eq!(s.waiting(), 0);
        }
    }
}

#[test]
fn produce_saturates_at_max() {
    let mut s = Semaphore::new(3, 4, 8);
    s.produce(10, 1, 0);
    assert_eq!(s.count(), 4);
    assert_eq!(s.max(), 4);
}

#[test]
fn count_stays_within_bounds_under_mixed_operations() {
    let mut s = Semaphore::new(2, 5, 4);
    let mut seed: u64 = 12345;
    let mut next_id: u64 = 0;
    for step in 0..2000u64 {
        seed = seed.wrapping_mul(6364136223846793005).wrapping_add(1442695040888963407);
        let amount = (seed >> 33) % 7;
        match (seed >> 20) % 4 {
            0 | 1 => {
                s.produce(amount, ((seed >> 10) % 3) as usize, step);
            }
            2 => {
                next_id += 1;
                let _ = s.consume(next_id, amount);
            }
            _ => {
                let _ = s.cancel(next_id);
                let _ = s.resume(next_id, step);
            }
        }
        assert!(s.count() <= s.max());
        assert!(s.waiting() <= 4);
    }
}

#[test]
fn unreachable_request_times_out_and_leaves_count() {
    let mut s = Semaphore::new(2, 3, 4);
    assert_eq!(s.consume(7, 4), Ok(false));
    assert_eq!(s.waiting(), 1);
    s.produce(3, 4, 10);
    assert_eq!(s.count(), 3);
    assert_eq!(s.cancel(7), Err(Error::TimedOut));
    assert_eq!(s.count(), 3);
    assert_eq!(s.waiting(), 0);
}

#[test]
fn cancel_after_wake_keeps_permits() {
    let mut s = Semaphore::new(0, 3, 4);
    assert_eq!(s.consume(1, 2), Ok(false));
    assert_eq!(s.produce(2, 1, 5), 1);
    assert_eq!(s.count(), 0);
    assert_eq!(s.cancel(1), Ok(()));
    assert!(s.resume(1, 9));
}

#[test]
fn queue_full_is_capacity_exceeded() {
    let mut s = Semaphore::new(0, 3, 2);
    assert_eq!(s.consume(1, 1), Ok(false));
    assert_eq!(s.consume(2, 1), Ok(false));
    assert_eq!(s.consume(3, 1), Err(Error::CapacityExceeded));
    assert_eq!(s.waiting(), 2);
}

#[test]
fn wake_batch_and_queue_order() {
    let mut s = Semaphore::new(0, 10, 8);
    assert_eq!(s.consume(1, 2), Ok(false));
    assert_eq!(s.consume(2, 5), Ok(false));
    assert_eq!(s.consume(3, 1), Ok(false));
    // Only two may wake, but the second asks for more than is left.
    assert_eq!(s.produce(4, 2, 100), 1);
    assert_eq!(s.count(), 2);
    assert_eq!(s.waiting(), 2);
    // Consumers do not jump the queue.
    assert_eq!(s.consume(4, 1), Ok(false));
    assert_eq!(s.produce(6, 0, 200), 0);
    assert_eq!(s.produce(0, 3, 300), 3);
    assert_eq!(s.count(), 1);
    assert_eq!(s.waiting(), 0);
}

#[test]
fn resume_records_latency_once() {
    let mut s = Semaphore::new(0, 1, 2);
    assert_eq!(s.consume(1, 1), Ok(false));
    s.produce(1, 1, 1_000);
    assert!(s.resume(1, 1_750));
    assert!(!s.resume(1, 2_000));
    let mut d = Distribution::new();
    s.collect_wake_stats(&mut d);
    assert_eq!(d.count(), 1);
    assert_eq!(d.sum(), 750);
    let mut e = Distribution::new();
    s.collect_wake_stats(&mut e);
    assert_eq!(e.count(), 0);
}

#[test]
fn ping_pong_blocking_handoffs_record_their_latency() {
    let n: u64 = 25;
    let mut sem1 = Semaphore::new(1, 256, 1024);
    let mut sem2 = Semaphore::new(1, 256, 1024);
    // Both workers first take the initial permit, so that every later
    // handoff blocks and is woken by the other side.
    assert_eq!(sem1.consume(2, 1), Ok(true));
    assert_eq!(sem2.consume(1, 1), Ok(true));
    let mut now: u64 = 0;
    for _ in 0..n {
        assert_eq!(sem2.consume(1, 1), Ok(false));
        assert_eq!(sem1.consume(2, 1), Ok(false));
        now += 10;
        assert_eq!(sem2.produce(1, 1, now), 1);
        assert!(sem2.resume(1, now + 3));
        assert_eq!(sem1.produce(1, 1, now), 1);
        assert!(sem1.resume(2, now + 4));
    }
    let d = ping_pong_wake_stats(&mut sem1, &mut sem2);
    // Two handoffs per round, plus the two initial permits taken at once.
    assert_eq!(d.count(), 2 * n + 2);
    assert_eq!(d.sum(), (7 * n) as u128);
    assert_eq!(sem1.count(), 0);
    assert_eq!(sem2.count(), 0);
}

#[test]
fn ping_pong_handoffs_give_two_samples_per_round() {
    let n: u64 = 40;
    let mut sem1 = Semaphore::new(1, 256, 1024);
    let mut sem2 = Semaphore::new(1, 256, 1024);
    for _ in 0..n {
        sem1.produce(1, 1, 0);
        assert_eq!(sem2.consume(1, 1), Ok(true));
        sem2.produce(1, 1, 0);
        assert_eq!(sem1.consume(2, 1), Ok(true));
    }
    assert_eq!(sem1.count(), 1);
    assert_eq!(sem2.count(), 1);
    let d = ping_pong_wake_stats(&mut sem1, &mut sem2);
    assert_eq!(d.count(), 2 * n);
    assert_eq!(d.sum(), 0);
}

#[test]
fn immediate_consume_records_zero_latency() {
    let mut s = Semaphore::new(3, 3, 1);
    assert_eq!(s.wake_count(), 0);
    assert_eq!(s.consume(1, 2), Ok(true));
    assert_eq!(s.wake_count(), 1);
    assert_eq!(s.consume(2, 2), Ok(false));
    assert_eq!(s.wake_count(), 1);
    assert_eq!(s.consume(3, 1), Err(Error::CapacityExceeded));
    assert_eq!(s.wake_count(), 1);
}

#[test]
fn collecting_in_either_order_gives_the_same_distribution() {
    let make = || {
        let mut a = Semaphore::new(0, 8, 4);
        let mut b = Semaphore::new(0, 8, 4);
        a.consume(1, 1).unwrap();
        a.produce(1, 1, 100);
        a.resume(1, 350);
        b.consume(2, 2).unwrap();
        b.produce(2, 1, 10);
        b.resume(2, 90_000);
        (a, b)
    };
    let (mut a1, mut b1) = make();
    let (mut a2, mut b2) = make();
    let d1 = ping_pong_wake_stats(&mut a1, &mut b1);
    let d2 = ping_pong_wake_stats(&mut b2, &mut a2);
    assert_eq!(d1.count(), 2);
    assert_eq!(d1.count(), d2.count());
    assert_eq!(d1.sum(), d2.sum());
    assert_eq!(d1.mean(), d2.mean());
    for p in [0u64, 50, 100] {
        assert_eq!(d1.percentile(p), d2.percentile(p));
    }
}
