//! Trusted bindings to the operating-system locking and signalling
//! primitives from `std::sync`.
//!
//! Everything the blocking wait group does to its shared counter happens
//! under one mutual-exclusion lock, paired with one condition variable for
//! the wake-up broadcast. Verus has no specification for these types, so this
//! module declares them and wraps the handful of calls the protocol needs.
//! Each wrapper's contract states only what the standard library documents;
//! the decisions taken between the calls — what to store, when to wake — are
//! verified code in the other modules.
//!
//! The wrappers propagate lock poisoning as a panic, as the protocol demands:
//! a poisoned lock means a participant died mid-update, and silently
//! continuing could lose wake-ups. No code in this crate can actually poison
//! the lock, since only verified, panic-free code runs while it is held.

use std::sync::Condvar;
use std::sync::Mutex;
use std::sync::MutexGuard;
use vstd::prelude::*;

verus! {

#[verifier::external_type_specification]
#[verifier::external_body]
#[verifier::reject_recursive_types(T)]
pub struct ExMutex<T: ?Sized>(Mutex<T>);

#[verifier::external_type_specification]
#[verifier::external_body]
#[verifier::reject_recursive_types(T)]
pub struct ExMutexGuard<'a, T: ?Sized + 'a>(MutexGuard<'a, T>);

#[verifier::external_type_specification]
#[verifier::external_body]
pub struct ExCondvar(Condvar);

/// Relies on `std::sync::Mutex::new`: makes a fresh, unlocked lock around the
/// given value. The stored value is shared mutable state and is not modelled
/// on the lock itself; it is observed again only through the guard.
pub assume_specification<T>[ Mutex::<T>::new ](t: T) -> Mutex<T>;

/// Relies on `std::sync::Condvar::new`: makes a fresh condition variable with
/// no waiters.
pub assume_specification[ Condvar::new ]() -> Condvar;

/// The counter value a held guard gives exclusive access to. While the guard
/// lives, no other thread can touch the value, so it changes only through
/// [`write_counter`], which takes the guard `&mut`.
pub uninterp spec fn guarded_value(g: MutexGuard<usize>) -> usize;

/// Relies on `std::sync::Mutex::lock`: blocks until the lock is free and
/// returns exclusive access to the counter. The value found there was left by
/// whichever add, done or discarded handle held the lock last, so nothing is
/// promised about it. Poisoning panics (see the module note); it cannot arise
/// from this crate's own, panic-free critical sections.
#[verifier::external_body]
pub(crate) fn lock_counter<'a>(m: &'a Mutex<usize>) -> (g: MutexGuard<'a, usize>)
    opens_invariants none
    no_unwind
{
    m.lock().unwrap()
}

/// Relies on `MutexGuard`'s `Deref`: yields the value the guard locks.
#[verifier::external_body]
pub(crate) fn read_counter(g: &MutexGuard<usize>) -> (r: usize)
    ensures
        r == guarded_value(*g),
    opens_invariants none
    no_unwind
{
    **g
}

/// Relies on `MutexGuard`'s `DerefMut`: stores `v` as the guarded value.
#[verifier::external_body]
pub(crate) fn write_counter(g: &mut MutexGuard<usize>, v: usize)
    ensures
        guarded_value(*final(g)) == v,
    opens_invariants none
    no_unwind
{
    **g = v;
}

/// Relies on `std::sync::Condvar::wait_while`: atomically releases the lock
/// and sleeps, and after every wake-up re-acquires the lock and re-checks the
/// counter, until the re-check under the lock finds it zero. That re-check —
/// [`crate::counter::counter_pending`], verified — is what guards against
/// spurious wake-ups and against racing `add` calls, so the guard handed back
/// always holds a counter of zero.
#[verifier::external_body]
pub(crate) fn block_while_pending<'a>(cvar: &Condvar, g: MutexGuard<'a, usize>) -> (r: MutexGuard<
    'a,
    usize,
>)
    ensures
        guarded_value(r) == 0,
    opens_invariants none
{
    cvar.wait_while(g, |c: &mut usize| crate::counter::counter_pending(*c)).unwrap()
}

/// Relies on `std::sync::Condvar::notify_all`: wakes every thread currently
/// blocked on the condition variable — the broadcast that releases all
/// waiters at once.
#[verifier::external_body]
pub(crate) fn wake_all_waiters(cvar: &Condvar)
    opens_invariants none
    no_unwind
{
    cvar.notify_all();
}

} // verus!
