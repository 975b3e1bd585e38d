use std::time::{Duration, Instant};
use sync_primitives::barrier::JoinBarrier;
use sync_primitives::scalar::SharedScalar;
use sync_primitives::work::plan_work;

fn pause(ms: u64) {
    let timer = crossbeam::channel::after(Duration::from_millis(ms));
    timer.recv().expect("a timer always fires");
}

#[test]
fn wait_returns_at_once_without_handles() {
    let barrier = JoinBarrier::new();
    barrier.wait();
}

#[test]
fn wait_returns_after_released_handles() {
    let barrier = JoinBarrier::new();
    let first = barrier.issue();
    let second = first.fork();
    first.release();
    drop(second);
    barrier.wait();
}

#[test]
fn wait_outlasts_the_slowest_worker() {
    let barrier = JoinBarrier::new();
    let handle = barrier.issue();
    let started = Instant::now();
    crossbeam::scope(|scope| {
        scope.spawn(move |_| {
            pause(200);
            handle.release();
        });
        barrier.wait();
        assert!(started.elapsed() >= Duration::from_millis(200));
    })
    .expect("a worker panicked");
}

#[test]
fn wait_returns_once_fifty_workers_released() {
    let barrier = JoinBarrier::new();
    let finished = SharedScalar::new(0);
    let longest = SharedScalar::new(0);
    let started = Instant::now();
    crossbeam::scope(|scope| {
        for _ in 0..50 {
            let handle = barrier.issue();
            let finished = finished.clone();
            let longest = longest.clone();
            scope.spawn(move |_| {
                let plan = plan_work();
                pause(plan.pause_ms);
                let mut seen = longest.load();
                while (seen as u64) < plan.pause_ms {
                    longest.store(plan.pause_ms as u32);
                    seen = longest.load();
                }
                finished.fetch_add(1);
                handle.release();
            });
        }
        barrier.wait();
        let waited = started.elapsed();
        assert_eq!(finished.load(), 50);
        assert!(waited >= Duration::from_millis(longest.load() as u64));
        assert!(waited < Duration::from_millis(5000));
    })
    .expect("a worker panicked");
}
