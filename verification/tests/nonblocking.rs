use waitgroup::AsyncWaitGroup;

#[test]
fn async_new_starts_at_zero() {
    let wg = AsyncWaitGroup::new();
    assert_eq!(wg.count(), 0);
    wg.wait();
}

#[test]
fn async_default_is_fresh() {
    let wg = AsyncWaitGroup::default();
    assert_eq!(wg.count(), 0);
}

#[test]
fn async_add_raises_count() {
    let wg = AsyncWaitGroup::new();
    let worker = wg.add(4);
    assert_eq!(wg.count(), 4);
    assert_eq!(worker.count(), 4);
}

#[test]
fn async_done_counts_down_and_clamps() {
    let wg = AsyncWaitGroup::new();
    let worker = wg.add(2);
    worker.done();
    assert_eq!(wg.count(), 1);
    worker.done();
    assert_eq!(wg.count(), 0);
    worker.done();
    assert_eq!(wg.count(), 0);
}

#[test]
fn async_done_on_fresh_group_is_ignored() {
    let wg = AsyncWaitGroup::new();
    wg.done();
    assert_eq!(wg.count(), 0);
}

#[test]
fn async_group_stays_usable_after_extra_dones() {
    let wg = AsyncWaitGroup::new();
    let worker = wg.add(1);
    worker.done();
    worker.done();
    let again = wg.add(3);
    assert_eq!(again.count(), 3);
    again.done();
    assert_eq!(wg.count(), 2);
}
