//! The bookkeeping of a lock that the thread holding it may take again.

use vstd::prelude::*;

verus! {

/// Who holds a recursive lock, and how many times.
#[derive(Debug, PartialEq, Eq, Structural)]
pub struct LockState {
    owner: Option<u64>,
    count: usize,
}

/// The holder and count after thread `me` takes a lock held by `owner`
/// `count` times: the holder takes it once more, a free lock becomes `me`'s
/// once, and a lock held by another thread stays as it is (`me` waits).
pub open spec fn after_lock(owner: Option<u64>, count: nat, me: u64) -> (Option<u64>, nat) {
    if owner == Some(me) {
        (owner, count + 1)
    } else if owner is None {
        (Some(me), 1)
    } else {
        (owner, count)
    }
}

/// The holder and count after the holder releases the lock once: the lock
/// is free once the count is back at zero.
pub open spec fn after_unlock(owner: Option<u64>, count: nat) -> (Option<u64>, nat) {
    if count <= 1 {
        (None, 0)
    } else {
        (owner, (count - 1) as nat)
    }
}

impl LockState {
    /// The thread holding the lock, if any.
    pub closed spec fn owner(&self) -> Option<u64> {
        self.owner
    }

    /// How many times the holder has taken the lock.
    pub closed spec fn count(&self) -> nat {
        self.count as nat
    }

    /// A lock is held exactly when its count is not zero.
    pub closed spec fn wf(&self) -> bool {
        self.owner is None <==> self.count == 0
    }

    /// A free lock.
    pub fn new() -> (state: Self)
        ensures
            state.wf(),
            state.owner() is None,
            state.count() == 0,
    {
        LockState { owner: None, count: 0 }
    }

    /// The thread holding the lock, if any.
    pub fn holder(&self) -> (owner: Option<u64>)
        ensures
            owner == self.owner(),
    {
        self.owner
    }

    /// How many times the holder has taken the lock.
    pub fn times(&self) -> (count: usize)
        ensures
            count == self.count(),
    {
        self.count
    }

    /// Thread `me` tries to take the lock; returns whether it holds it now.
    /// Otherwise another thread holds it and `me` is to wait.
    pub fn try_lock(&mut self, me: u64) -> (acquired: bool)
        requires
            old(self).wf(),
            old(self).owner() == Some(me) ==> old(self).count() < usize::MAX,
        ensures
            final(self).wf(),
            acquired == (old(self).owner() is None || old(self).owner() == Some(me)),
            (final(self).owner(), final(self).count()) == after_lock(
                old(self).owner(),
                old(self).count(),
                me,
            ),
    {
        match self.owner {
            Some(o) => {
                if o == me {
                    self.count = self.count + 1;
                    true
                } else {
                    false
                }
            },
            None => {
                self.owner = Some(me);
                self.count = 1;
                true
            },
        }
    }

    /// Thread `me`, the holder, releases the lock once. Returns whether the
    /// lock became free, when one waiting thread is to be woken.
    pub fn unlock(&mut self, me: u64) -> (freed: bool)
        requires
            old(self).wf(),
            old(self).owner() == Some(me),
        ensures
            final(self).wf(),
            freed == (old(self).count() == 1),
            (final(self).owner(), final(self).count()) == after_unlock(
                old(self).owner(),
                old(self).count(),
            ),
    {
        self.count = self.count - 1;
        if self.count == 0 {
            self.owner = None;
            true
        } else {
            false
        }
    }
}

/// Taking a lock that is free or already held by the same thread, then
/// releasing it once, gives back the lock as it was.
pub proof fn lock_then_unlock_restores(owner: Option<u64>, count: nat, me: u64)
    requires
        owner is None <==> count == 0,
        owner is None || owner == Some(me),
    ensures
        ({
            let (o1, c1) = after_lock(owner, count, me);
            after_unlock(o1, c1) == (owner, count)
        }),
{
}

/// While a thread holds the lock, no other thread takes it.
pub proof fn held_lock_excludes_others(owner: Option<u64>, count: nat, me: u64)
    requires
        owner is Some,
        owner != Some(me),
    ensures
        after_lock(owner, count, me) == (owner, count),
{
}

} // verus!
