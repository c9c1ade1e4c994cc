//! A wait group: a synchronization primitive that lets a coordinator block
//! until a dynamically sized set of concurrently running participants have
//! all reported completion.
//!
//! A group tracks one shared counter of outstanding participants. `add(n)`
//! registers `n` participants and mints a handle for them, each participant
//! calls `done()` exactly once when finished (or simply discards its handle),
//! and `wait()` blocks until the counter reaches zero. The group has no
//! terminal state: it can be re-armed and drained again.
//!
//! The counter transitions — the decrement clamped at zero, the
//! wake-exactly-on-reaching-zero decision, the saturating increment — are
//! pure, verified functions in [`counter`], and the protocol they implement
//! is modelled and proved as a whole in [`model`]. [`blocking::WaitGroup`]
//! drives those transitions under a lock with a condition variable for the
//! broadcast wake; [`nonblocking::AsyncWaitGroup`] drives them over an atomic
//! counter but has no suspension mechanism yet. The locking and signalling
//! calls themselves are trusted declarations in [`sync`].

mod blocking;
mod counter;
mod model;
mod nonblocking;
mod sync;

pub use blocking::WaitGroup;
pub use counter::add_step;
pub use counter::counter_pending;
pub use counter::done_step;
pub use counter::done_update;
pub use counter::lemma_add_step_matches_model;
pub use counter::lemma_done_step_matches_model;
pub use counter::lemma_wake_exactly_on_drain;
pub use counter::spec_add_count;
pub use counter::spec_done_count;
pub use counter::spec_done_update;
pub use counter::spec_wake;
pub use model::Step;
pub use model::added;
pub use model::balanced;
pub use model::dones;
pub use model::lemma_adds_then_dones_drain;
pub use model::lemma_balanced_run;
pub use model::lemma_only_dones_stay_at_zero;
pub use model::lemma_run_append;
pub use model::next;
pub use model::run;
pub use nonblocking::AsyncWaitGroup;
