//! The verified counter transitions.
//!
//! Every mutation a wait group performs on its shared counter is one of the
//! transitions below. The executable steps are pure functions from the
//! observed counter value to the value to store next (and, for `done`, to the
//! decision whether to wake the waiters), so the whole decrement/notify policy
//! is verified here once and shared by both handle types.

use vstd::prelude::*;

use crate::model::Step;
use crate::model::next;

verus! {

/// The counter after one `done`: decrement by one, clamped at zero.
///
/// A `done` past zero is deliberately ignored rather than underflowing, so a
/// group stays usable no matter how often `done` is over-called.
pub open spec fn spec_done_count(c: usize) -> usize {
    if c == 0 {
        0
    } else {
        (c - 1) as usize
    }
}

/// Whether one `done` observed at counter `c` must wake the waiters: exactly
/// when it takes the counter from one to zero.
pub open spec fn spec_wake(c: usize) -> bool {
    c == 1
}

/// The counter after `add(n)`: increment by `n`, saturating at `usize::MAX`.
///
/// The counter counts outstanding participants, so in practice it never comes
/// near the saturation bound; saturating keeps the transition total.
pub open spec fn spec_add_count(c: usize, n: usize) -> usize {
    if c + n <= usize::MAX {
        (c + n) as usize
    } else {
        usize::MAX
    }
}

/// The `done` transition in the shape an atomic read-modify-write update
/// takes: `None` (leave unchanged) at zero, `Some` of the decrement otherwise.
pub open spec fn spec_done_update(c: usize) -> Option<usize> {
    if c == 0 {
        None
    } else {
        Some((c - 1) as usize)
    }
}

/// One `done` step: from the counter value observed under the lock, the value
/// to store and whether to wake all waiters.
///
/// This is the three-way policy at the heart of the protocol: a counter of one
/// goes to zero and wakes everyone, a counter of zero stays at zero (the
/// defensive clamp), and anything larger is decremented silently.
pub fn done_step(c: usize) -> (r: (usize, bool))
    ensures
        r.0 == spec_done_count(c),
        r.1 == spec_wake(c),
    opens_invariants none
    no_unwind
{
    if c == 1 {
        (0, true)
    } else if c == 0 {
        (0, false)
    } else {
        (c - 1, false)
    }
}

/// One `add` step: the counter value to store after registering `num` more
/// participants.
pub fn add_step(c: usize, num: usize) -> (r: usize)
    ensures
        r == spec_add_count(c, num),
    opens_invariants none
    no_unwind
{
    if num <= usize::MAX - c {
        c + num
    } else {
        usize::MAX
    }
}

/// The `done` transition as handed to an atomic `fetch_update`.
pub fn done_update(c: usize) -> (r: Option<usize>)
    ensures
        r == spec_done_update(c),
    opens_invariants none
    no_unwind
{
    if c == 0 {
        None
    } else {
        Some(c - 1)
    }
}

/// Whether a waiter must keep sleeping: the counter still has outstanding
/// participants. Re-checked under the lock after every wake-up, so a spurious
/// wake-up or a racing `add` sends the waiter back to sleep.
pub fn counter_pending(c: usize) -> (r: bool)
    ensures
        r == (c > 0),
    opens_invariants none
    no_unwind
{
    c > 0
}

/// The executable `done` transition is the model's `Done` step: what
/// [`done_step`] stores is exactly what [`crate::model::run`] folds, so the
/// laws proved over the model speak about the counter this crate really
/// keeps.
pub proof fn lemma_done_step_matches_model(c: usize)
    ensures
        spec_done_count(c) as nat == next(c as nat, Step::Done),
{
}

/// The executable `add` transition is the model's `Add` step wherever the
/// counter does not saturate — and the counter counts outstanding
/// participants, which never come near `usize::MAX` in practice.
pub proof fn lemma_add_step_matches_model(c: usize, num: usize)
    requires
        c + num <= usize::MAX,
    ensures
        spec_add_count(c, num) as nat == next(c as nat, Step::Add(num as nat)),
{
}

/// The crux of the wake policy: `done` broadcasts exactly when it is the
/// step that drains the counter — when there was something outstanding and
/// the decrement reaches zero. Never on a decrement that leaves work pending,
/// and never on the ignored decrement of an already drained group.
pub proof fn lemma_wake_exactly_on_drain(c: usize)
    ensures
        spec_wake(c) <==> (c > 0 && spec_done_count(c) == 0),
{
}

} // verus!
