use vstd::prelude::*;

use crate::slot::{debug_view, LockSlot, PoisonError, TryLockError};

verus! {

/// One event in the life of a lock, in the order in which the latch saw it.
pub enum Step<T> {
    /// Some context tries once to take the lock.
    Acquire,
    /// A guard gives its value back; `failed` when its critical section
    /// ended abnormally.
    Release { value: T, failed: bool },
}

/// The state reached from `s` after `steps`, and how many guards are then alive.
pub open spec fn run<T>(s: LockSlot<T>, steps: Seq<Step<T>>) -> (LockSlot<T>, nat)
    decreases steps.len(),
{
    if steps.len() == 0 {
        (s, 0)
    } else {
        let (p, g) = run(s, steps.drop_last());
        match steps.last() {
            Step::Acquire => match p.take_result() {
                Err(TryLockError::WouldBlock) => (p.take_next(), g),
                _ => (p.take_next(), g + 1),
            },
            Step::Release { value, failed } => (p.release_next(value, failed), (g - 1) as nat),
        }
    }
}

/// A history in which only a guard that is alive gives a value back.
pub open spec fn lawful<T>(s: LockSlot<T>, steps: Seq<Step<T>>) -> bool
    decreases steps.len(),
{
    steps.len() == 0 || {
        &&& lawful(s, steps.drop_last())
        &&& steps.last() is Release ==> run(s, steps.drop_last()).1 > 0
    }
}

/// Mutual exclusion: whatever lawful history a free lock goes through, at
/// most one guard is alive afterwards, and one is alive exactly while the
/// lock is held. Every prefix of a lawful history is lawful, so this holds
/// at every instant.
pub proof fn at_most_one_guard<T>(s: LockSlot<T>, steps: Seq<Step<T>>)
    requires
        s.wf(),
        !s.held,
        lawful(s, steps),
    ensures
        run(s, steps).1 <= 1,
        run(s, steps).1 == 1 <==> run(s, steps).0.held,
        run(s, steps).0.wf(),
    decreases steps.len(),
{
    if steps.len() > 0 {
        at_most_one_guard(s, steps.drop_last());
    }
}

/// A try-acquire on a held lock reports would-block and leaves the state,
/// poison included, as it was.
pub proof fn try_on_held_would_block<T>(s: LockSlot<T>)
    requires
        s.wf(),
        s.held,
    ensures
        s.take_result() == Err::<T, TryLockError<T>>(TryLockError::WouldBlock),
        s.take_next() == s,
        s.take_next().poisoned == s.poisoned,
{
}

/// Once poisoned, a lock stays poisoned through any history.
pub proof fn poison_is_permanent<T>(s: LockSlot<T>, steps: Seq<Step<T>>)
    requires
        s.poisoned,
    ensures
        run(s, steps).0.poisoned,
    decreases steps.len(),
{
    if steps.len() > 0 {
        poison_is_permanent(s, steps.drop_last());
    }
}

/// A guard released after a failure poisons the lock; the next acquisition
/// still succeeds, and hands the value back marked as poisoned.
pub proof fn failure_poisons<T>(s: LockSlot<T>, v: T)
    ensures
        s.release_next(v, true).poisoned,
        s.release_next(v, true).take_result() == Err::<T, TryLockError<T>>(
            TryLockError::Poisoned(PoisonError { guard: v }),
        ),
{
}

/// Consuming a fresh lock gives back the value it was built with.
pub proof fn consume_fresh<T>(v: T)
    ensures
        LockSlot::initial(v).consume_result() == Some(Ok::<T, PoisonError<T>>(v)),
{
}

/// Consuming a poisoned lock still yields its value, inside the poison indicator.
pub proof fn consume_poisoned<T>(s: LockSlot<T>)
    requires
        s.wf(),
        !s.held,
        s.poisoned,
    ensures
        s.consume_result() == Some(Err::<T, PoisonError<T>>(PoisonError { guard: s.value->0 })),
{
}

/// Showing a held lock does not wait for the holder: the attempt reports
/// would-block, changes nothing, and the text is the placeholder.
pub proof fn held_lock_shows_placeholder<T>(s: LockSlot<T>)
    requires
        s.wf(),
        s.held,
    ensures
        s.take_result() is Err,
        s.take_next() == s,
        debug_view(None) == "Spinlock { data: <locked> }"@,
{
    reveal_strlit("Spinlock { data: ");
    reveal_strlit("<locked>");
    reveal_strlit(" }");
    reveal_strlit("Spinlock { data: <locked> }");
    assert(debug_view(None) =~= "Spinlock { data: <locked> }"@);
}

} // verus!
