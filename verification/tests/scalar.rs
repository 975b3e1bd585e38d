use sync_primitives::scalar::{AtomicScalar, SharedScalar};

#[test]
fn load_gives_initial_value() {
    let scalar = AtomicScalar::new(12);
    assert_eq!(scalar.load(), 12);
}

#[test]
fn load_after_store_gives_stored_value() {
    let mut scalar = AtomicScalar::new(12);
    scalar.store(40);
    assert_eq!(scalar.load(), 40);
    assert_eq!(scalar.load(), 40);
    scalar.store(0);
    assert_eq!(scalar.load(), 0);
}

#[test]
fn fetch_add_returns_previous_value() {
    let mut scalar = AtomicScalar::new(7);
    assert_eq!(scalar.fetch_add(3), 7);
    assert_eq!(scalar.load(), 10);
    assert_eq!(scalar.fetch_add(0), 10);
    assert_eq!(scalar.load(), 10);
}

#[test]
fn fetch_add_wraps_round() {
    let mut scalar = AtomicScalar::new(u32::MAX);
    assert_eq!(scalar.fetch_add(1), u32::MAX);
    assert_eq!(scalar.load(), 0);
    scalar.store(u32::MAX - 1);
    assert_eq!(scalar.fetch_add(5), u32::MAX - 1);
    assert_eq!(scalar.load(), 3);
}

#[test]
fn touch_bumps_only_when_asked() {
    let mut scalar = AtomicScalar::new(12);
    assert_eq!(scalar.touch(false), 12);
    assert_eq!(scalar.touch(true), 13);
    assert_eq!(scalar.touch(false), 13);
    scalar.store(u32::MAX);
    assert_eq!(scalar.touch(true), 0);
}

#[test]
fn shared_scalar_alone_behaves_like_owned() {
    let scalar = SharedScalar::new(12);
    assert_eq!(scalar.load(), 12);
    scalar.store(5);
    assert_eq!(scalar.load(), 5);
    assert_eq!(scalar.fetch_add(2), 5);
    assert_eq!(scalar.touch(true), 8);
    assert_eq!(scalar.touch(false), 8);
}

#[test]
fn into_shared_keeps_value() {
    let mut scalar = AtomicScalar::new(1);
    scalar.store(99);
    let shared = scalar.into_shared();
    let twin = shared.clone();
    assert_eq!(twin.load(), 99);
    twin.store(3);
    assert_eq!(shared.load(), 3);
}

#[test]
fn workers_bump_shared_scalar() {
    let scalar = SharedScalar::new(12);
    crossbeam::scope(|scope| {
        for num in 1..10u32 {
            let handle = scalar.clone();
            scope.spawn(move |_| {
                let seen = handle.touch(num % 2 == 0);
                assert!((12..=16).contains(&seen));
            });
        }
    })
    .expect("a worker panicked");
    assert_eq!(scalar.load(), 16);
}
