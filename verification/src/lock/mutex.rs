//! A mutex.

use crate::event::{after_drop, after_notify, has_key, resumed, Entry, Event, ListenerState, Wait};
use vstd::prelude::*;

verus! {

/// A mutex: the data, whether it is locked, and the event that unlocking
/// notifies.
pub struct Mutex<T, W> {
    unlocked: Event<(), W>,
    data: T,
    locked: bool,
}

/// Proof of holding a mutex's lock, given out by locking it.
pub struct MutexGuard {
    _private: (),
}

impl<T, W> Mutex<T, W> {
    /// The data.
    pub closed spec fn value(&self) -> T {
        self.data
    }

    /// Is the mutex locked?
    pub closed spec fn is_locked(&self) -> bool {
        self.locked
    }

    /// The listeners waiting for the mutex to be unlocked.
    pub closed spec fn waiters(&self) -> Seq<Entry<(), W>> {
        self.unlocked.entries()
    }

    /// How many of the waiters are notified.
    pub closed spec fn notified(&self) -> nat {
        self.unlocked.notified()
    }

    /// The key the next waiter gets.
    pub closed spec fn next_key(&self) -> u64 {
        self.unlocked.next_key()
    }

    /// The waiters are well formed.
    pub closed spec fn wf(&self) -> bool {
        self.unlocked.wf()
    }

    /// Creates an unlocked mutex holding `data`.
    pub fn new(data: T) -> (mutex: Self)
        ensures
            mutex.wf(),
            mutex.value() == data,
            !mutex.is_locked(),
            mutex.waiters().len() == 0,
            mutex.notified() == 0,
            mutex.next_key() == 0,
    {
        Mutex { unlocked: Event::new(), data, locked: false }
    }

    /// Unwraps the data.
    pub fn into_inner(self) -> (data: T)
        ensures
            data == self.value(),
    {
        self.data
    }

    /// The data, for a caller that holds the mutex exclusively.
    pub fn get_mut(&mut self) -> (data: &mut T)
        ensures
            *data == old(self).value(),
            final(self).value() == *final(data),
            final(self).is_locked() == old(self).is_locked(),
            final(self).waiters() == old(self).waiters(),
            final(self).notified() == old(self).notified(),
            final(self).next_key() == old(self).next_key(),
            final(self).wf() == old(self).wf(),
    {
        &mut self.data
    }

    /// Locks the mutex if it is unlocked.
    pub fn try_lock(&mut self) -> (guard: Option<MutexGuard>)
        requires
            old(self).wf(),
        ensures
            final(self).wf(),
            guard is Some <==> !old(self).is_locked(),
            final(self).is_locked(),
            final(self).value() == old(self).value(),
            final(self).waiters() == old(self).waiters(),
            final(self).notified() == old(self).notified(),
            final(self).next_key() == old(self).next_key(),
    {
        if self.locked {
            None
        } else {
            self.locked = true;
            Some(MutexGuard { _private: () })
        }
    }

    /// The data, read through the lock.
    pub fn get(&self, guard: &MutexGuard) -> (data: &T)
        ensures
            *data == self.value(),
    {
        &self.data
    }

    /// The data, written through the lock.
    pub fn get_guarded_mut(&mut self, guard: &MutexGuard) -> (data: &mut T)
        ensures
            *data == old(self).value(),
            final(self).value() == *final(data),
            final(self).is_locked() == old(self).is_locked(),
            final(self).waiters() == old(self).waiters(),
            final(self).notified() == old(self).notified(),
            final(self).next_key() == old(self).next_key(),
            final(self).wf() == old(self).wf(),
    {
        &mut self.data
    }

    /// Unlocks the mutex, giving up `guard`, and notifies one waiter.
    /// Returns the wakers to wake.
    pub fn unlock(&mut self, guard: MutexGuard) -> (wakers: Vec<W>)
        requires
            old(self).wf(),
        ensures
            final(self).wf(),
            !final(self).is_locked(),
            final(self).value() == old(self).value(),
            final(self).next_key() == old(self).next_key(),
            (final(self).waiters(), final(self).notified(), wakers@) == after_notify(
                old(self).waiters(),
                old(self).notified(),
                1,
                false,
                (),
            ),
    {
        self.locked = false;
        let (_, wakers) = self.unlocked.notify_tag(1, false, ());
        wakers
    }

    /// Can another wait start?
    pub fn can_wait(&self) -> (ok: bool)
        ensures
            ok == (self.next_key() < u64::MAX),
    {
        self.unlocked.can_listen()
    }

    /// Starts locking: a wait on the unlock event.
    pub fn lock(&mut self) -> (wait: Wait)
        requires
            old(self).wf(),
            old(self).next_key() < u64::MAX,
        ensures
            final(self).wf(),
            !wait.waiting,
            !has_key(final(self).waiters(), wait.listener.id),
            wait.listener.id < final(self).next_key(),
            final(self).next_key() == old(self).next_key() + 1,
            final(self).is_locked() == old(self).is_locked(),
            final(self).value() == old(self).value(),
            final(self).waiters() == old(self).waiters(),
            final(self).notified() == old(self).notified(),
    {
        self.unlocked.start_wait()
    }

    /// Polls a lock in progress. Once its wait may go on, the lock is taken
    /// if the mutex is unlocked; otherwise it waits again for an unlock.
    pub fn poll_lock(&mut self, wait: &mut Wait, waker: W) -> (guard: Option<MutexGuard>)
        requires
            old(self).wf(),
            old(wait).listener.id < old(self).next_key(),
            old(wait).waiting || !has_key(old(self).waiters(), old(wait).listener.id),
        ensures
            final(self).wf(),
            final(self).value() == old(self).value(),
            final(self).next_key() == old(self).next_key(),
            final(wait).listener == old(wait).listener,
            final(wait).waiting || !has_key(final(self).waiters(), final(wait).listener.id),
            ({
                let (go, after, n) = resumed(
                    old(self).waiters(),
                    old(self).notified(),
                    old(wait).listener.id,
                    old(wait).waiting,
                    waker,
                );
                if !go {
                    &&& guard is None
                    &&& final(wait).waiting
                    &&& final(self).is_locked() == old(self).is_locked()
                    &&& final(self).waiters() == after
                    &&& final(self).notified() == n
                } else if !old(self).is_locked() {
                    &&& guard is Some
                    &&& !final(wait).waiting
                    &&& final(self).is_locked()
                    &&& final(self).waiters() == after
                    &&& final(self).notified() == n
                } else {
                    &&& guard is None
                    &&& final(wait).waiting
                    &&& final(self).is_locked()
                    &&& final(self).waiters() == after.push(
                        Entry { id: old(wait).listener.id, state: ListenerState::Waiting(waker) },
                    )
                    &&& final(self).notified() == n
                }
            }),
    {
        match self.unlocked.resume(wait, waker) {
            None => None,
            Some(w) => match self.try_lock() {
                Some(guard) => Some(guard),
                None => {
                    self.unlocked.suspend(wait, w);
                    None
                },
            },
        }
    }

    /// A lock in progress is dropped: its listener leaves, passing on a
    /// notification it had not taken.
    pub fn drop_lock(&mut self, wait: Wait) -> (wakers: Vec<W>)
        requires
            old(self).wf(),
        ensures
            final(self).wf(),
            final(self).is_locked() == old(self).is_locked(),
            final(self).value() == old(self).value(),
            final(self).next_key() == old(self).next_key(),
            (final(self).waiters(), final(self).notified(), wakers@) == after_drop(
                old(self).waiters(),
                old(self).notified(),
                wait.listener.id,
            ),
    {
        self.unlocked.drop_listener(wait.listener)
    }
}

} // verus!
