mod laws;
mod slot;
mod spinlock;

pub use laws::{
    at_most_one_guard, consume_fresh, consume_poisoned, failure_poisons,
    held_lock_shows_placeholder, lawful, poison_is_permanent, run, try_on_held_would_block, Step,
};
pub use slot::{
    debug_text, debug_view, with_poison, LockResult, LockSlot, PoisonError, TryLockError,
    TryLockResult,
};
pub use spinlock::{SlotWellFormed, Spinlock, SpinlockGuard};
