//! The non-blocking wait-group variant.
//!
//! Same counter protocol as [`crate::blocking`], but over a lock-free atomic
//! counter: `done` is one atomic read-modify-write of the verified transition
//! [`crate::spec_done_update`]. Its `wait`, however, is a placeholder that
//! never suspends — this variant can be polled through [`AsyncWaitGroup::count`]
//! but cannot yet park a caller, and a real suspending wait would have to be
//! designed around a future or promise resolved by the broadcast.

use core::sync::atomic::AtomicUsize;
use core::sync::atomic::Ordering;
use std::sync::Arc;
use std::sync::Condvar;
use vstd::prelude::*;

use crate::counter::done_update;
use crate::counter::spec_done_update;
use crate::sync::wake_all_waiters;

verus! {

/// The state every handle shares: an atomic count of outstanding
/// participants, and the signal a real suspending `wait` would sleep on.
struct AsyncInner {
    cvar: Condvar,
    counter: AtomicUsize,
}

impl Default for AsyncInner {
    /// A fresh shared state with the counter at zero and no waiters.
    fn default() -> Self {
        AsyncInner { cvar: Condvar::new(), counter: AtomicUsize::new(0) }
    }
}

/// A shared handle to one non-blocking wait group.
pub struct AsyncWaitGroup {
    inner: Arc<AsyncInner>,
}

impl Default for AsyncWaitGroup {
    /// A fresh group with no outstanding participants.
    fn default() -> Self {
        AsyncWaitGroup { inner: Arc::new(AsyncInner::default()) }
    }
}

/// Relies on `AtomicUsize::fetch_update`: applies the verified `done`
/// transition [`crate::counter::done_update`] as one atomic read-modify-write.
/// As its documentation states, the call hands back `Ok` of the previous
/// value when the closure chose to store a new one, and `Err` of the previous
/// value when the closure declined — here, when the counter was already zero
/// and was left untouched.
#[verifier::external_body]
fn update_counter_done(counter: &AtomicUsize) -> (r: Result<usize, usize>)
    ensures
        r matches Ok(prev) ==> spec_done_update(prev) is Some,
        r matches Err(prev) ==> spec_done_update(prev) is None,
{
    counter.fetch_update(Ordering::SeqCst, Ordering::SeqCst, |c| done_update(c))
}

impl AsyncWaitGroup {
    /// A fresh group with no outstanding participants: its counter starts at
    /// zero.
    pub fn new() -> (wg: AsyncWaitGroup) {
        AsyncWaitGroup::default()
    }

    /// Registers `num` more participants and mints a handle for them: one
    /// atomic increment of the counter (wrapping in the far-fetched case of
    /// overflow, as the underlying `fetch_add` documents).
    ///
    /// The handle handed back shares the caller's state — it refers to the
    /// same counter and the same signal, not to a fresh group.
    pub fn add(&self, num: usize) -> (wg: AsyncWaitGroup)
        ensures
            wg == *self,
    {
        let _prev: usize = (*self.inner).counter.fetch_add(num, Ordering::SeqCst);
        AsyncWaitGroup { inner: self.inner.clone() }
    }

    /// Reports one completion: one atomic application of the verified
    /// transition — down by one, clamped at zero, so over-calling `done`
    /// neither panics nor wraps the counter around — and exactly when the
    /// counter went from one to zero, the broadcast wake is sent.
    pub fn done(&self) {
        let r = update_counter_done(&(*self.inner).counter);
        if let Ok(prev) = r {
            if prev == 1 {
                wake_all_waiters(&(*self.inner).cvar);
            }
        }
    }

    /// A placeholder that returns at once, whatever the counter holds: this
    /// variant has no suspension mechanism yet. Poll
    /// [`AsyncWaitGroup::count`] instead to observe the counter.
    pub fn wait(&self) {
    }

    /// A snapshot of the counter: how many participants were outstanding at
    /// the moment of the atomic read. Other handles may move the counter
    /// immediately afterwards.
    pub fn count(&self) -> usize {
        (*self.inner).counter.load(Ordering::SeqCst)
    }
}

} // verus!
