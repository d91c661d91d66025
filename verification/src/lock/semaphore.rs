//! A semaphore.

use crate::event::{after_drop, after_notify, has_key, resumed, Entry, Event, ListenerState, Wait};
use vstd::prelude::*;

verus! {

/// A semaphore: the permits left, and the event that releasing a permit
/// notifies.
pub struct Semaphore<W> {
    event: Event<(), W>,
    permits: usize,
}

/// Proof of holding one permit of a semaphore.
pub struct SemaphoreGuard {
    _private: (),
}

impl<W> Semaphore<W> {
    /// The permits left.
    pub closed spec fn permits(&self) -> nat {
        self.permits as nat
    }

    /// The listeners waiting for a permit.
    pub closed spec fn waiters(&self) -> Seq<Entry<(), W>> {
        self.event.entries()
    }

    /// How many of the waiters are notified.
    pub closed spec fn notified(&self) -> nat {
        self.event.notified()
    }

    /// The key the next waiter gets.
    pub closed spec fn next_key(&self) -> u64 {
        self.event.next_key()
    }

    /// The waiters are well formed.
    pub closed spec fn wf(&self) -> bool {
        self.event.wf()
    }

    /// Creates a semaphore with `permits` permits.
    pub fn new(permits: usize) -> (sem: Self)
        ensures
            sem.wf(),
            sem.permits() == permits,
            sem.waiters().len() == 0,
            sem.notified() == 0,
            sem.next_key() == 0,
    {
        Semaphore { event: Event::new(), permits }
    }

    /// The permits left.
    pub fn available(&self) -> (permits: usize)
        ensures
            permits == self.permits(),
    {
        self.permits
    }

    /// Takes a permit if one is left.
    pub fn try_acquire(&mut self) -> (guard: Option<SemaphoreGuard>)
        requires
            old(self).wf(),
        ensures
            final(self).wf(),
            guard is Some <==> old(self).permits() > 0,
            final(self).permits() == if old(self).permits() > 0 {
                (old(self).permits() - 1) as nat
            } else {
                0
            },
            final(self).waiters() == old(self).waiters(),
            final(self).notified() == old(self).notified(),
            final(self).next_key() == old(self).next_key(),
    {
        if self.permits > 0 {
            self.permits = self.permits - 1;
            Some(SemaphoreGuard { _private: () })
        } else {
            None
        }
    }

    /// Gives back the permit of `guard` and notifies one waiter. Returns the
    /// wakers to wake.
    pub fn release(&mut self, guard: SemaphoreGuard) -> (wakers: Vec<W>)
        requires
            old(self).wf(),
            old(self).permits() < usize::MAX,
        ensures
            final(self).wf(),
            final(self).permits() == old(self).permits() + 1,
            final(self).next_key() == old(self).next_key(),
            (final(self).waiters(), final(self).notified(), wakers@) == after_notify(
                old(self).waiters(),
                old(self).notified(),
                1,
                false,
                (),
            ),
    {
        self.permits = self.permits + 1;
        let (_, wakers) = self.event.notify_tag(1, false, ());
        wakers
    }

    /// Can another wait start?
    pub fn can_wait(&self) -> (ok: bool)
        ensures
            ok == (self.next_key() < u64::MAX),
    {
        self.event.can_listen()
    }

    /// Starts acquiring a permit: a wait on the release event.
    pub fn acquire(&mut self) -> (wait: Wait)
        requires
            old(self).wf(),
            old(self).next_key() < u64::MAX,
        ensures
            final(self).wf(),
            !wait.waiting,
            !has_key(final(self).waiters(), wait.listener.id),
            wait.listener.id < final(self).next_key(),
            final(self).next_key() == old(self).next_key() + 1,
            final(self).permits() == old(self).permits(),
            final(self).waiters() == old(self).waiters(),
            final(self).notified() == old(self).notified(),
    {
        self.event.start_wait()
    }

    /// Polls an acquire in progress. Once its wait may go on, a permit is
    /// taken if one is left; otherwise it waits again for a release.
    pub fn poll_acquire(&mut self, wait: &mut Wait, waker: W) -> (guard: Option<SemaphoreGuard>)
        requires
            old(self).wf(),
            old(wait).listener.id < old(self).next_key(),
            old(wait).waiting || !has_key(old(self).waiters(), old(wait).listener.id),
        ensures
            final(self).wf(),
            final(self).next_key() == old(self).next_key(),
            final(wait).listener == old(wait).listener,
            final(wait).waiting || !has_key(final(self).waiters(), final(wait).listener.id),
            ({
                let (go, after, n) = resumed(
                    old(self).waiters(),
                    old(self).notified(),
                    old(wait).listener.id,
                    old(wait).waiting,
                    waker,
                );
                if !go {
                    &&& guard is None
                    &&& final(wait).waiting
                    &&& final(self).permits() == old(self).permits()
                    &&& final(self).waiters() == after
                    &&& final(self).notified() == n
                } else if old(self).permits() > 0 {
                    &&& guard is Some
                    &&& !final(wait).waiting
                    &&& final(self).permits() == old(self).permits() - 1
                    &&& final(self).waiters() == after
                    &&& final(self).notified() == n
                } else {
                    &&& guard is None
                    &&& final(wait).waiting
                    &&& final(self).permits() == 0
                    &&& final(self).waiters() == after.push(
                        Entry { id: old(wait).listener.id, state: ListenerState::Waiting(waker) },
                    )
                    &&& final(self).notified() == n
                }
            }),
    {
        match self.event.resume(wait, waker) {
            None => None,
            Some(w) => match self.try_acquire() {
                Some(guard) => Some(guard),
                None => {
                    self.event.suspend(wait, w);
                    None
                },
            },
        }
    }

    /// An acquire in progress is dropped: its listener leaves, passing on a
    /// notification it had not taken.
    pub fn drop_acquire(&mut self, wait: Wait) -> (wakers: Vec<W>)
        requires
            old(self).wf(),
        ensures
            final(self).wf(),
            final(self).permits() == old(self).permits(),
            final(self).next_key() == old(self).next_key(),
            (final(self).waiters(), final(self).notified(), wakers@) == after_drop(
                old(self).waiters(),
                old(self).notified(),
                wait.listener.id,
            ),
    {
        self.event.drop_listener(wait.listener)
    }
}

} // verus!
