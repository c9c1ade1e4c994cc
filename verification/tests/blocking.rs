use waitgroup::WaitGroup;

#[test]
fn new_starts_drained() {
    let wg = WaitGroup::new();
    assert_eq!(wg.count(), 0);
    // The counter is already zero, so this must return at once.
    wg.wait();
}

#[test]
fn done_on_fresh_group_is_ignored() {
    let wg = WaitGroup::new();
    wg.done();
    assert_eq!(wg.count(), 0);
    wg.wait();
}

#[test]
fn add_raises_count() {
    let wg = WaitGroup::new();
    let worker = wg.add(3);
    assert_eq!(wg.count(), 3);
    assert_eq!(worker.count(), 3);
}

#[test]
fn add_zero_changes_nothing() {
    let wg = WaitGroup::new();
    let other = wg.add(0);
    assert_eq!(wg.count(), 0);
    assert_eq!(other.count(), 0);
    wg.wait();
}

#[test]
fn add_then_done_then_wait_returns() {
    let wg = WaitGroup::new();
    let worker = wg.add(1);
    assert_eq!(wg.count(), 1);
    worker.done();
    assert_eq!(wg.count(), 0);
    wg.wait();
}

#[test]
fn interleaved_adds_and_dones_drain() {
    let wg = WaitGroup::new();
    let a = wg.add(2);
    let b = wg.add(3);
    assert_eq!(wg.count(), 5);
    a.done();
    a.done();
    b.done();
    b.done();
    b.done();
    assert_eq!(wg.count(), 0);
    wg.wait();
}

#[test]
fn extra_done_clamps_at_zero() {
    let wg = WaitGroup::new();
    let worker = wg.add(2);
    worker.done();
    worker.done();
    worker.done();
    assert_eq!(wg.count(), 0);
    wg.wait();
}

#[test]
fn group_stays_usable_after_extra_dones() {
    let wg = WaitGroup::new();
    let worker = wg.add(2);
    worker.done();
    worker.done();
    worker.done();
    assert_eq!(wg.count(), 0);
    let again = wg.add(1);
    assert_eq!(wg.count(), 1);
    again.done();
    assert_eq!(wg.count(), 0);
    wg.wait();
}

#[test]
fn dropping_a_handle_reports_one_done() {
    let wg = WaitGroup::new();
    let worker = wg.add(1);
    assert_eq!(wg.count(), 1);
    drop(worker);
    assert_eq!(wg.count(), 0);
    wg.wait();
}

#[test]
fn cloning_does_not_change_count() {
    let wg = WaitGroup::new();
    let worker = wg.add(2);
    let twin = worker.clone();
    assert_eq!(wg.count(), 2);
    drop(twin);
    // Discarding the clone reports exactly one completion.
    assert_eq!(wg.count(), 1);
    worker.done();
    assert_eq!(wg.count(), 0);
    wg.wait();
}

#[test]
fn add_saturates_at_the_counter_bound() {
    let wg = WaitGroup::new();
    let a = wg.add(usize::MAX);
    assert_eq!(wg.count(), usize::MAX);
    let b = wg.add(1);
    assert_eq!(wg.count(), usize::MAX);
    drop(a);
    drop(b);
    assert_eq!(wg.count(), usize::MAX - 2);
}
