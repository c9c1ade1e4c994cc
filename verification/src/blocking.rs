//! The blocking wait group.
//!
//! One shared counter, protected by a lock and paired with a condition
//! variable, jointly owned by every handle. `add` raises the counter, `done`
//! (or discarding a handle) lowers it, and `wait` blocks until it reaches
//! zero. Every read-modify-write of the counter happens in one critical
//! section, and the decrement and the zero-check-and-wake share that critical
//! section — the ordering that rules out the classic lost wake-up.

use std::sync::Arc;
use std::sync::Condvar;
use std::sync::Mutex;
use vstd::prelude::*;

use crate::counter::add_step;
use crate::counter::done_step;
use crate::sync::block_while_pending;
use crate::sync::lock_counter;
use crate::sync::read_counter;
use crate::sync::wake_all_waiters;
use crate::sync::write_counter;

verus! {

/// The state every handle shares: the count of outstanding participants and
/// the signal that releases the waiters.
struct Inner {
    cvar: Condvar,
    counter: Mutex<usize>,
}

/// A shared handle to one wait group.
///
/// Handles are freely cloneable; a clone refers to the same shared counter
/// and does not change it. Discarding a handle reports one completion, so a
/// participant that leaves early — by return or by panic — still releases its
/// slot.
pub struct WaitGroup {
    inner: Arc<Inner>,
}

impl Clone for WaitGroup {
    /// A clone is one more handle to the same group. Cloning by itself never
    /// changes the counter — only `add` registers participants — though
    /// discarding the clone later reports one completion, as every handle
    /// does.
    fn clone(&self) -> (r: Self)
        ensures
            r == *self,
    {
        WaitGroup { inner: self.inner.clone() }
    }
}

impl WaitGroup {
    /// A fresh group with no outstanding participants: its counter starts at
    /// zero, so a `wait` before any `add` returns at once.
    pub fn new() -> (wg: WaitGroup) {
        WaitGroup {
            inner: Arc::new(Inner { cvar: Condvar::new(), counter: Mutex::new(0) }),
        }
    }

    /// Registers `num` more participants and mints a handle for them.
    ///
    /// The counter is raised by `num` in one critical section — safe against
    /// concurrent `add`, `done` and `wait` calls on other handles — following
    /// the verified transition [`crate::spec_add_count`]: an exact increment,
    /// saturating at `usize::MAX`. With `num == 0` the counter is unchanged.
    ///
    /// The handle handed back shares the caller's state — it refers to the
    /// same counter and the same signal, not to a fresh group.
    pub fn add(&self, num: usize) -> (wg: WaitGroup)
        ensures
            wg == *self,
    {
        let mut g = lock_counter(&(*self.inner).counter);
        let c = read_counter(&g);
        write_counter(&mut g, add_step(c, num));
        WaitGroup { inner: self.inner.clone() }
    }

    /// Reports one completion.
    ///
    /// In one critical section the counter moves by the verified transition
    /// [`crate::spec_done_count`] — down by one, clamped at zero, so calling
    /// `done` more often than `add` registered neither panics nor leaves the
    /// counter negative — and exactly when the counter goes from one to zero
    /// ([`crate::spec_wake`]), every waiter is woken while the lock is still
    /// held.
    pub fn done(&self)
        opens_invariants none
        no_unwind
    {
        let mut g = lock_counter(&(*self.inner).counter);
        let (next_count, wake) = done_step(read_counter(&g));
        write_counter(&mut g, next_count);
        if wake {
            wake_all_waiters(&(*self.inner).cvar);
        }
    }

    /// Blocks the calling thread until the counter reaches zero.
    ///
    /// If the counter is already zero at the check under the lock, returns
    /// immediately without sleeping. Otherwise the thread sleeps on the
    /// condition variable and re-checks the counter under the lock after
    /// every wake-up, so it returns only once it has itself observed zero —
    /// spurious wake-ups and counters re-raised by a racing `add` send it
    /// back to sleep. Any number of threads may wait at once; the wake is a
    /// broadcast that releases them all.
    pub fn wait(&self) {
        let g = lock_counter(&(*self.inner).counter);
        if read_counter(&g) == 0 {
            return;
        }
        let _drained = block_while_pending(&(*self.inner).cvar, g);
    }

    /// A snapshot of the counter: how many participants were outstanding at
    /// the moment of the read (taken under the lock). Other handles may move
    /// the counter immediately afterwards.
    pub fn count(&self) -> usize {
        let g = lock_counter(&(*self.inner).counter);
        read_counter(&g)
    }
}

impl Drop for WaitGroup {
    /// Discarding a handle reports one completion, exactly as an explicit
    /// [`WaitGroup::done`] call would.
    fn drop(&mut self)
        opens_invariants none
        no_unwind
    {
        self.done();
    }
}

} // verus!
