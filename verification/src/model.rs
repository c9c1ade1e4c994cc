//! A mathematical model of the wait-group protocol, and its laws.
//!
//! The shared counter only ever changes by the two transitions below: `add`
//! raises it and `done` lowers it, clamped at zero. [`run`] folds a whole
//! history of such steps over a starting counter. The lemmas at the end state
//! the protocol's guarantees: a history that never over-draws is exact, adds
//! followed by a matching number of dones drain the counter to zero, and
//! over-calling `done` leaves the counter at zero with the group still usable.

use vstd::prelude::*;

verus! {

/// One mutation of the shared counter: registering `n` participants, or one
/// completion report.
pub enum Step {
    Add(nat),
    Done,
}

/// The counter after one step. `Done` clamps at zero instead of underflowing.
pub open spec fn next(c: nat, s: Step) -> nat {
    match s {
        Step::Add(n) => c + n,
        Step::Done => if c == 0 {
            0
        } else {
            (c - 1) as nat
        },
    }
}

/// The counter after a whole history of steps, applied left to right.
pub open spec fn run(c: nat, ops: Seq<Step>) -> nat
    decreases ops.len(),
{
    if ops.len() == 0 {
        c
    } else {
        next(run(c, ops.drop_last()), ops.last())
    }
}

/// The total number of participants a history registers.
pub open spec fn added(ops: Seq<Step>) -> nat
    decreases ops.len(),
{
    if ops.len() == 0 {
        0
    } else {
        added(ops.drop_last()) + match ops.last() {
            Step::Add(n) => n,
            Step::Done => 0,
        }
    }
}

/// The number of completion reports in a history.
pub open spec fn dones(ops: Seq<Step>) -> nat
    decreases ops.len(),
{
    if ops.len() == 0 {
        0
    } else {
        dones(ops.drop_last()) + match ops.last() {
            Step::Add(_) => 0,
            Step::Done => 1nat,
        }
    }
}

/// A history never over-draws: at no point have more completions been
/// reported than participants registered. Every history in which each
/// participant reports `done` only after its own `add` is balanced.
pub open spec fn balanced(ops: Seq<Step>) -> bool {
    forall|i: int| 0 <= i <= ops.len() ==> #[trigger] dones(ops.take(i)) <= added(ops.take(i))
}

/// `added` distributes over concatenation of histories.
pub proof fn lemma_added_concat(a: Seq<Step>, b: Seq<Step>)
    ensures
        added(a + b) == added(a) + added(b),
    decreases b.len(),
{
    if b.len() == 0 {
        assert(a + b =~= a);
    } else {
        assert((a + b).drop_last() =~= a + b.drop_last());
        lemma_added_concat(a, b.drop_last());
    }
}

/// `dones` distributes over concatenation of histories.
pub proof fn lemma_dones_concat(a: Seq<Step>, b: Seq<Step>)
    ensures
        dones(a + b) == dones(a) + dones(b),
    decreases b.len(),
{
    if b.len() == 0 {
        assert(a + b =~= a);
    } else {
        assert((a + b).drop_last() =~= a + b.drop_last());
        lemma_dones_concat(a, b.drop_last());
    }
}

/// A history of adds alone reports no completions and registers the sum of
/// its amounts; a history of dones alone registers nothing and reports its
/// length.
pub proof fn lemma_homogeneous_counts(ops: Seq<Step>)
    ensures
        (forall|i: int| 0 <= i < ops.len() ==> ops[i] is Add) ==> dones(ops) == 0,
        (forall|i: int| 0 <= i < ops.len() ==> ops[i] is Done) ==> added(ops) == 0 && dones(ops)
            == ops.len(),
    decreases ops.len(),
{
    if ops.len() > 0 {
        lemma_homogeneous_counts(ops.drop_last());
    }
}

/// The law of exact histories: as long as a history never over-draws, no
/// clamping occurs, and the counter comes out at the start value plus every
/// registration minus every completion.
pub proof fn lemma_balanced_run(c: nat, ops: Seq<Step>)
    requires
        balanced(ops),
    ensures
        run(c, ops) + dones(ops) == c + added(ops),
    decreases ops.len(),
{
    if ops.len() == 0 {
    } else {
        let pre = ops.drop_last();
        assert forall|i: int| 0 <= i <= pre.len() implies #[trigger] dones(pre.take(i)) <= added(
            pre.take(i),
        ) by {
            assert(pre.take(i) =~= ops.take(i));
            assert(dones(ops.take(i)) <= added(ops.take(i)));
        }
        lemma_balanced_run(c, pre);
        if ops.last() is Done {
            assert(ops.take(ops.len() as int) =~= ops);
            assert(dones(ops) <= added(ops));
        }
    }
}

/// The draining law: any number of `add` calls, followed by exactly as many
/// `done` calls as participants registered, takes the counter from zero back
/// to zero — this is the moment every waiter is released.
pub proof fn lemma_adds_then_dones_drain(regs: Seq<Step>, reps: Seq<Step>)
    requires
        forall|i: int| 0 <= i < regs.len() ==> regs[i] is Add,
        forall|i: int| 0 <= i < reps.len() ==> reps[i] is Done,
        reps.len() == added(regs),
    ensures
        run(0, regs + reps) == 0,
{
    let ops = regs + reps;
    assert forall|i: int| 0 <= i <= ops.len() implies #[trigger] dones(ops.take(i)) <= added(
        ops.take(i),
    ) by {
        if i <= regs.len() {
            assert(ops.take(i) =~= regs.take(i));
            assert forall|j: int| 0 <= j < regs.take(i).len() implies regs.take(i)[j] is Add by {
                assert(regs.take(i)[j] == regs[j]);
            }
            lemma_homogeneous_counts(regs.take(i));
        } else {
            let k = i - regs.len();
            assert(ops.take(i) =~= regs + reps.take(k));
            lemma_added_concat(regs, reps.take(k));
            lemma_dones_concat(regs, reps.take(k));
            assert forall|j: int| 0 <= j < reps.take(k).len() implies reps.take(k)[j] is Done by {
                assert(reps.take(k)[j] == reps[j]);
            }
            lemma_homogeneous_counts(reps.take(k));
            lemma_homogeneous_counts(regs);
        }
    }
    lemma_balanced_run(0, ops);
    lemma_added_concat(regs, reps);
    lemma_dones_concat(regs, reps);
    lemma_homogeneous_counts(regs);
    lemma_homogeneous_counts(reps);
}

/// The clamping law: `done` calls beyond the registered participants are
/// ignored — from a drained group, any run of extra `done` calls leaves the
/// counter at zero and never underflows.
pub proof fn lemma_only_dones_stay_at_zero(ops: Seq<Step>)
    requires
        forall|i: int| 0 <= i < ops.len() ==> ops[i] is Done,
    ensures
        run(0, ops) == 0,
    decreases ops.len(),
{
    if ops.len() > 0 {
        lemma_only_dones_stay_at_zero(ops.drop_last());
    }
}

/// The reuse law: a wait group has no terminal state. Whatever a first phase
/// of use leaves behind is exactly the starting counter of the next phase, so
/// a drained — or even over-drained — group behaves like a fresh one.
pub proof fn lemma_run_append(c: nat, ops1: Seq<Step>, ops2: Seq<Step>)
    ensures
        run(c, ops1 + ops2) == run(run(c, ops1), ops2),
    decreases ops2.len(),
{
    if ops2.len() == 0 {
        assert(ops1 + ops2 =~= ops1);
    } else {
        assert((ops1 + ops2).drop_last() =~= ops1 + ops2.drop_last());
        lemma_run_append(c, ops1, ops2.drop_last());
    }
}

} // verus!
