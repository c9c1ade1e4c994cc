use waitgroup::add_step;
use waitgroup::counter_pending;
use waitgroup::done_step;
use waitgroup::done_update;

#[test]
fn done_step_decrements_above_one() {
    assert_eq!(done_step(5), (4, false));
    assert_eq!(done_step(2), (1, false));
}

#[test]
fn done_step_wakes_exactly_on_one() {
    assert_eq!(done_step(1), (0, true));
    assert_eq!(done_step(2).1, false);
    assert_eq!(done_step(0).1, false);
}

#[test]
fn done_step_clamps_at_zero() {
    assert_eq!(done_step(0), (0, false));
}

#[test]
fn add_step_is_exact_until_saturation() {
    assert_eq!(add_step(0, 0), 0);
    assert_eq!(add_step(2, 3), 5);
    assert_eq!(add_step(usize::MAX - 1, 1), usize::MAX);
    assert_eq!(add_step(usize::MAX, 1), usize::MAX);
    assert_eq!(add_step(usize::MAX - 1, 7), usize::MAX);
}

#[test]
fn done_update_declines_only_at_zero() {
    assert_eq!(done_update(0), None);
    assert_eq!(done_update(1), Some(0));
    assert_eq!(done_update(9), Some(8));
}

#[test]
fn counter_pending_is_the_zero_test() {
    assert!(!counter_pending(0));
    assert!(counter_pending(1));
    assert!(counter_pending(usize::MAX));
}
