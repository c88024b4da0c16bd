use schtest::context::Context;
use schtest::error::Error;
use schtest::process::{Next, ProcessHandle, Stats};

#[test]
fn created_context_is_not_running() {
    let ctx = Context::create().unwrap();
    assert!(!ctx.running());
    assert_eq!(ctx.num_processes(), 0);
    assert_eq!(ctx.add(|| 1), Ok(()));
}

#[test]
fn start_publishes_budget_once() {
    let mut ctx = Context::create().unwrap();
    assert_eq!(ctx.register(101), 0);
    assert_eq!(ctx.register(102), 1);
    assert_eq!(ctx.next_budget(0), Next::Exit);
    ctx.start(500);
    assert!(ctx.running());
    assert_eq!(ctx.next_budget(0), Next::Run(500));
    assert_eq!(ctx.next_budget(0), Next::Wait);
    assert_eq!(ctx.next_budget(1), Next::Run(500));
    ctx.stop();
    assert_eq!(ctx.next_budget(0), Next::Exit);
}

#[test]
fn no_stale_work_after_stop() {
    let mut ctx = Context::create().unwrap();
    ctx.register(1);
    ctx.start(3);
    ctx.stop();
    assert_eq!(ctx.next_budget(0), Next::Exit);
}

#[test]
fn stats_only_after_wait() {
    let mut ctx = Context::create().unwrap();
    ctx.register(7);
    ctx.start(1);
    assert_eq!(ctx.process(0).stats(), Err(Error::NotReady));
    assert_eq!(ctx.process(0).pid(), 7);
    ctx.stop();
    let observed = vec![Stats { total_time_ns: 50_000_000, nr_migrations: 2 }];
    ctx.wait(&observed);
    assert!(!ctx.running());
    let s = ctx.process(0).stats().unwrap();
    assert!(s.total_time_ns > 0);
    assert_eq!(s, observed[0]);
    ctx.start(2);
    assert_eq!(ctx.process(0).stats(), Err(Error::NotReady));
}

#[test]
fn process_handle_round_trip() {
    let mut p = ProcessHandle::new(9);
    assert_eq!(p.stats(), Err(Error::NotReady));
    p.start(4);
    assert_eq!(p.next_budget(true), Next::Run(4));
    assert_eq!(p.next_budget(true), Next::Wait);
    let st = Stats { total_time_ns: 1, nr_migrations: 0 };
    assert_eq!(p.wait(st), st);
    assert_eq!(p.stats(), Ok(st));
    assert_eq!(p.next_budget(false), Next::Exit);
}

#[test]
fn error_messages() {
    assert_eq!(Error::TimedOut.message(), "timed out");
    assert_eq!(Error::CapacityExceeded.message(), "capacity exceeded");
}
