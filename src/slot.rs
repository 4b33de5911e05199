use vstd::prelude::*;

verus! {

/// A value handed out together with the news that the lock it came from is poisoned.
pub struct PoisonError<G> {
    pub guard: G,
}

impl<G> PoisonError<G> {
    pub fn new(guard: G) -> (r: Self)
        ensures
            r.guard == guard,
    {
        PoisonError { guard }
    }

    pub fn into_inner(self) -> (r: G)
        ensures
            r == self.guard,
    {
        self.guard
    }

    pub fn get_ref(&self) -> (r: &G)
        ensures
            *r == self.guard,
    {
        &self.guard
    }
}

/// Why a single non-blocking attempt to take a lock did not yield a clean guard.
pub enum TryLockError<G> {
    Poisoned(PoisonError<G>),
    WouldBlock,
}

pub type LockResult<G> = Result<G, PoisonError<G>>;

pub type TryLockResult<G> = Result<G, TryLockError<G>>;

/// The whole state of a spinlock: whether a guard is out, whether a critical
/// section has failed, and the protected value while no guard holds it.
pub struct LockSlot<T> {
    pub held: bool,
    pub poisoned: bool,
    pub value: Option<T>,
}

/// `Ok(v)` when clean, the poison indicator around `v` otherwise.
pub open spec fn with_poison<G>(poisoned: bool, v: G) -> LockResult<G> {
    if poisoned {
        Err(PoisonError { guard: v })
    } else {
        Ok(v)
    }
}

/// How a lock is shown: the rendered value when it could be reached, a
/// placeholder when a guard held it.
pub open spec fn debug_view(data: Option<Seq<char>>) -> Seq<char> {
    "Spinlock { data: "@ + match data {
        Some(d) => d,
        None => "<locked>"@,
    } + " }"@
}

pub fn debug_text(data: Option<String>) -> (r: String)
    ensures
        r@ == debug_view(
            match data {
                Some(d) => Some(d@),
                None => None,
            },
        ),
{
    let head = String::from_str("Spinlock { data: ");
    let shown = match data {
        Some(d) => head.concat(d.as_str()),
        None => head.concat("<locked>"),
    };
    shown.concat(" }")
}

impl<T> LockSlot<T> {
    /// The value is in the slot exactly while no guard holds it.
    pub open spec fn wf(&self) -> bool {
        self.held <==> self.value is None
    }

    /// A fresh lock around `v`: free and clean.
    pub open spec fn initial(v: T) -> Self {
        LockSlot { held: false, poisoned: false, value: Some(v) }
    }

    /// What one attempt to take the lock hands back.
    pub open spec fn take_result(self) -> TryLockResult<T> {
        if self.held {
            Err(TryLockError::WouldBlock)
        } else {
            match with_poison(self.poisoned, self.value->0) {
                Ok(v) => Ok(v),
                Err(e) => Err(TryLockError::Poisoned(e)),
            }
        }
    }

    /// The state after one attempt to take the lock.
    pub open spec fn take_next(self) -> Self {
        if self.held {
            self
        } else {
            LockSlot { held: true, poisoned: self.poisoned, value: None }
        }
    }

    /// The state after a guard gives `v` back; `failed` tells that its
    /// critical section ended abnormally.
    pub open spec fn release_next(self, v: T, failed: bool) -> Self {
        LockSlot { held: false, poisoned: self.poisoned || failed, value: Some(v) }
    }

    /// What consuming the lock yields: the value, marked when poisoned, or
    /// nothing when a guard went away with it.
    pub open spec fn consume_result(self) -> Option<LockResult<T>> {
        match self.value {
            Some(v) => Some(with_poison(self.poisoned, v)),
            None => None,
        }
    }

    pub fn new(v: T) -> (s: Self)
        ensures
            s == Self::initial(v),
            s.wf(),
    {
        LockSlot { held: false, poisoned: false, value: Some(v) }
    }

    /// One attempt to take the lock: never waits.
    pub fn try_take(&mut self) -> (r: TryLockResult<T>)
        requires
            old(self).wf(),
        ensures
            r == old(self).take_result(),
            *final(self) == old(self).take_next(),
            final(self).wf(),
    {
        if self.held {
            return Err(TryLockError::WouldBlock);
        }
        let taken = self.value.take();
        self.held = true;
        match taken {
            Some(v) => {
                if self.poisoned {
                    Err(TryLockError::Poisoned(PoisonError::new(v)))
                } else {
                    Ok(v)
                }
            },
            None => Err(TryLockError::WouldBlock),
        }
    }

    /// A guard gives its value back and the lock becomes free.
    pub fn put_back(&mut self, v: T, failed: bool)
        ensures
            *final(self) == old(self).release_next(v, failed),
            final(self).wf(),
    {
        self.value = Some(v);
        self.held = false;
        if failed {
            self.poisoned = true;
        }
    }

    pub fn is_poisoned(&self) -> (r: bool)
        ensures
            r == self.poisoned,
    {
        self.poisoned
    }

    pub fn into_inner(self) -> (r: Option<LockResult<T>>)
        ensures
            r == self.consume_result(),
    {
        match self.value {
            Some(v) => {
                if self.poisoned {
                    Some(Err(PoisonError::new(v)))
                } else {
                    Some(Ok(v))
                }
            },
            None => None,
        }
    }
}

} // verus!
