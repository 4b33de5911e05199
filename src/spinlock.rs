use vstd::prelude::*;
use vstd::rwlock::{RwLock, RwLockPredicate};

use crate::slot::{debug_text, debug_view, LockResult, LockSlot, PoisonError, TryLockError, TryLockResult};

verus! {

/// The predicate that every state stored in a spinlock's latch satisfies.
pub struct SlotWellFormed;

impl<T> RwLockPredicate<LockSlot<T>> for SlotWellFormed {
    open spec fn inv(self, s: LockSlot<T>) -> bool {
        s.wf()
    }
}

/// A busy-wait lock around one value.
///
/// The lock's state lives behind a latch that is only ever taken for a
/// constant number of steps (one transition of `LockSlot`), never for the
/// length of a critical section; a guard owns the value while it is out.
pub struct Spinlock<T> {
    latch: RwLock<LockSlot<T>, SlotWellFormed>,
}

/// Proof that the lock is held: it owns the protected value until it is
/// unlocked, which gives the value back.
pub struct SpinlockGuard<'a, T> {
    spinlock: &'a Spinlock<T>,
    value: T,
}

impl<T> Spinlock<T> {
    #[verifier::type_invariant]
    closed spec fn wf(&self) -> bool {
        self.latch.pred() == SlotWellFormed
    }

    /// A free, clean lock around `t`. What the lock holds is shared with
    /// every thread that can reach it, so the contracts of the methods below
    /// say what holds of every outcome; `LockSlot` states each transition
    /// exactly.
    pub fn new(t: T) -> (r: Spinlock<T>) {
        let slot = LockSlot::new(t);
        Spinlock { latch: RwLock::new(slot, Ghost(SlotWellFormed)) }
    }

    /// One attempt to take the lock, without waiting for a holder.
    pub fn try_lock(&self) -> (r: TryLockResult<SpinlockGuard<'_, T>>)
        ensures
            match r {
                Ok(g) => g.spinlock() == self,
                Err(TryLockError::Poisoned(e)) => e.guard.spinlock() == self,
                Err(TryLockError::WouldBlock) => true,
            },
    {
        proof {
            use_type_invariant(self);
        }
        let (mut slot, handle) = self.latch.acquire_write();
        let attempt = slot.try_take();
        handle.release_write(slot);
        match attempt {
            Ok(v) => Ok(SpinlockGuard { spinlock: self, value: v }),
            Err(TryLockError::Poisoned(e)) => {
                let g = SpinlockGuard { spinlock: self, value: e.into_inner() };
                Err(TryLockError::Poisoned(PoisonError::new(g)))
            },
            Err(TryLockError::WouldBlock) => Err(TryLockError::WouldBlock),
        }
    }

    /// Whether some critical section has failed; takes no guard, and waits
    /// at most for another thread's single state transition.
    pub fn is_poisoned(&self) -> bool {
        proof {
            use_type_invariant(self);
        }
        let (slot, handle) = self.latch.acquire_write();
        let r = slot.is_poisoned();
        handle.release_write(slot);
        r
    }

    /// Shows the lock without waiting: the value as `show` renders it when
    /// the lock is free (poisoned or not), a placeholder while a guard holds it.
    pub fn debug_with<F: Fn(&T) -> String>(&self, show: F) -> (r: String)
        requires
            forall|v: &T| show.requires((v,)),
        ensures
            exists|d: Option<Seq<char>>|
                r@ == debug_view(d) && match d {
                    Some(text) => exists|v: &T, s: String| show.ensures((v,), s) && s@ == text,
                    None => true,
                },
    {
        let shown = match self.try_lock() {
            Ok(g) => {
                let text = show(&*g);
                g.unlock();
                Some(text)
            },
            Err(TryLockError::Poisoned(e)) => {
                let g = e.into_inner();
                let text = show(&*g);
                g.unlock();
                Some(text)
            },
            Err(TryLockError::WouldBlock) => None,
        };
        debug_text(shown)
    }

    /// Returns a guard's value to the lock and frees it.
    fn give_back(&self, v: T, failed: bool) {
        proof {
            use_type_invariant(self);
        }
        let (mut slot, handle) = self.latch.acquire_write();
        slot.put_back(v, failed);
        handle.release_write(slot);
    }

    /// Takes the value out of the lock, marked when the lock is poisoned;
    /// `None` when a guard was dropped without being unlocked and took the
    /// value with it.
    pub fn into_inner(self) -> (r: Option<LockResult<T>>) {
        proof {
            use_type_invariant(&self);
        }
        let slot = self.latch.into_inner();
        slot.into_inner()
    }
}

impl<'a, T> std::ops::Deref for SpinlockGuard<'a, T> {
    type Target = T;

    fn deref(&self) -> (r: &T)
        ensures
            *r == self@,
    {
        &self.value
    }
}

impl<'a, T> std::ops::DerefMut for SpinlockGuard<'a, T> {
    fn deref_mut(&mut self) -> (r: &mut T)
        ensures
            *r == old(self)@,
            final(self)@ == *final(r),
    {
        &mut self.value
    }
}

impl<T> From<T> for Spinlock<T> {
    fn from(t: T) -> (r: Spinlock<T>) {
        Spinlock::new(t)
    }
}

impl<T> vstd::std_specs::convert::FromSpecImpl<T> for Spinlock<T> {
    open spec fn obeys_from_spec() -> bool {
        false
    }

    open spec fn from_spec(v: T) -> Spinlock<T> {
        arbitrary()
    }
}

impl<T: Default> Default for Spinlock<T> {
    fn default() -> (r: Spinlock<T>) {
        Spinlock::new(T::default())
    }
}

impl<'a, T> SpinlockGuard<'a, T> {
    /// The lock this guard was taken from.
    pub closed spec fn spinlock(&self) -> &'a Spinlock<T> {
        self.spinlock
    }

    /// The protected value, as this guard holds it.
    pub closed spec fn view(&self) -> T {
        self.value
    }

    /// Gives the value back after a critical section that ended normally.
    pub fn unlock(self) {
        self.spinlock.give_back(self.value, false);
    }

    /// Gives the value back after a critical section that failed: the lock
    /// becomes poisoned, and stays so.
    pub fn unlock_failed(self) {
        self.spinlock.give_back(self.value, true);
    }
}

} // verus!
