//! A barrier: tasks wait until a set number of them have arrived.

use crate::event::{after_drop, after_notify, has_key, resumed, Entry, Event, ListenerState, Wait};
use vstd::prelude::*;

verus! {

/// A barrier for `n` tasks: how many of the current generation have arrived,
/// the generation, and the event that the last arrival notifies.
pub struct Barrier<W> {
    n: usize,
    count: usize,
    generation: u64,
    event: Event<(), W>,
}

/// The result of waiting on a barrier.
#[derive(Debug, Clone, Copy)]
pub struct BarrierWaitResult {
    is_leader: bool,
}

impl BarrierWaitResult {
    /// Was the waiter that got this result the leader, whose arrival completed the count?
    pub closed spec fn leader(&self) -> bool {
        self.is_leader
    }

    /// Did the waiter that got this result lead its round?
    pub fn is_leader(&self) -> (leader: bool)
        ensures
            leader == self.leader(),
    {
        self.is_leader
    }
}

/// A wait on a barrier: whether it has arrived, the generation it arrived
/// in, and the wait on the barrier's event.
pub struct BarrierWait {
    pub wait: Wait,
    pub arrived: bool,
    pub generation: u64,
}

impl<W> Barrier<W> {
    /// The number of tasks the barrier waits for.
    pub closed spec fn size(&self) -> nat {
        self.n as nat
    }

    /// How many tasks of the current generation have arrived.
    pub closed spec fn arrived(&self) -> nat {
        self.count as nat
    }

    /// The current generation: how many times the barrier has opened.
    pub closed spec fn generation(&self) -> u64 {
        self.generation
    }

    /// The waiting tasks' listeners.
    pub closed spec fn waiters(&self) -> Seq<Entry<(), W>> {
        self.event.entries()
    }

    /// How many of the waiters are notified.
    pub closed spec fn notified(&self) -> nat {
        self.event.notified()
    }

    /// The key the next waiter gets.
    pub closed spec fn next_key(&self) -> u64 {
        self.event.next_key()
    }

    /// The waiters are well formed, and fewer than `n` tasks of the current
    /// generation have arrived (none, for a barrier of size zero).
    pub closed spec fn wf(&self) -> bool {
        &&& self.event.wf()
        &&& (self.count < self.n || self.count == 0)
    }

    /// A barrier never holds a full count: the last arrival opens it.
    pub proof fn never_full(&self)
        requires
            self.wf(),
        ensures
            self.arrived() < self.size() || self.arrived() == 0,
    {
    }

    /// Creates a barrier that waits for `n` tasks.
    pub fn new(n: usize) -> (barrier: Self)
        ensures
            barrier.wf(),
            barrier.size() == n,
            barrier.arrived() == 0,
            barrier.generation() == 0,
            barrier.waiters().len() == 0,
            barrier.notified() == 0,
            barrier.next_key() == 0,
    {
        Barrier { n, count: 0, generation: 0, event: Event::new() }
    }

    /// Can another wait start?
    pub fn can_wait(&self) -> (ok: bool)
        ensures
            ok == (self.next_key() < u64::MAX),
    {
        self.event.can_listen()
    }

    /// The current generation.
    pub fn current_generation(&self) -> (generation: u64)
        ensures
            generation == self.generation(),
    {
        self.generation
    }

    /// Starts waiting on the barrier; nothing happens until it is polled.
    pub fn wait(&mut self) -> (bw: BarrierWait)
        requires
            old(self).wf(),
            old(self).next_key() < u64::MAX,
        ensures
            final(self).wf(),
            !bw.arrived,
            !bw.wait.waiting,
            !has_key(final(self).waiters(), bw.wait.listener.id),
            bw.wait.listener.id < final(self).next_key(),
            final(self).next_key() == old(self).next_key() + 1,
            final(self).size() == old(self).size(),
            final(self).arrived() == old(self).arrived(),
            final(self).generation() == old(self).generation(),
            final(self).waiters() == old(self).waiters(),
            final(self).notified() == old(self).notified(),
    {
        let wait = self.event.start_wait();
        BarrierWait { wait, arrived: false, generation: 0 }
    }

    /// Polls a wait on the barrier. At its first poll the task arrives: if
    /// it completes the count it is the leader, the barrier opens for a new
    /// generation and every waiter is notified (their wakers are returned);
    /// otherwise it waits. A waiting task that is notified finishes once its
    /// generation has passed or the count is full; otherwise it waits again.
    pub fn poll_wait(&mut self, bw: &mut BarrierWait, waker: W) -> (res: (
        Option<BarrierWaitResult>,
        Vec<W>,
    ))
        requires
            old(self).wf(),
            old(bw).wait.listener.id < old(self).next_key(),
            old(bw).wait.waiting || !has_key(old(self).waiters(), old(bw).wait.listener.id),
            !old(bw).arrived ==> !old(bw).wait.waiting && old(self).generation() < u64::MAX,
        ensures
            final(self).wf(),
            final(self).size() == old(self).size(),
            final(self).next_key() == old(self).next_key(),
            final(bw).arrived,
            final(bw).wait.listener == old(bw).wait.listener,
            final(bw).wait.waiting || !has_key(final(self).waiters(), final(bw).wait.listener.id),
            !old(bw).arrived ==> final(bw).generation == old(self).generation(),
            old(bw).arrived ==> final(bw).generation == old(bw).generation,
            !old(bw).arrived && old(self).arrived() + 1 < old(self).size() ==> {
                &&& res.0 is None
                &&& res.1@.len() == 0
                &&& final(bw).wait.waiting
                &&& final(self).arrived() == old(self).arrived() + 1
                &&& final(self).generation() == old(self).generation()
                &&& final(self).waiters() == old(self).waiters().push(
                    Entry { id: old(bw).wait.listener.id, state: ListenerState::Waiting(waker) },
                )
                &&& final(self).notified() == old(self).notified()
            },
            !old(bw).arrived && old(self).arrived() + 1 >= old(self).size() ==> {
                &&& res.0 matches Some(r) && r.leader()
                &&& final(self).arrived() == 0
                &&& final(self).generation() == old(self).generation() + 1
                &&& (final(self).waiters(), final(self).notified(), res.1@) == after_notify(
                    old(self).waiters(),
                    old(self).notified(),
                    usize::MAX as nat,
                    false,
                    (),
                )
            },
            old(bw).arrived ==> {
                let (go, after, n) = resumed(
                    old(self).waiters(),
                    old(self).notified(),
                    old(bw).wait.listener.id,
                    old(bw).wait.waiting,
                    waker,
                );
                &&& final(self).arrived() == old(self).arrived()
                &&& final(self).generation() == old(self).generation()
                &&& final(self).notified() == n
                &&& res.1@.len() == 0
                &&& if !go {
                    &&& res.0 is None
                    &&& final(bw).wait.waiting
                    &&& final(self).waiters() == after
                } else if old(bw).generation == old(self).generation() && old(self).arrived()
                    < old(self).size() {
                    &&& res.0 is None
                    &&& final(bw).wait.waiting
                    &&& final(self).waiters() == after.push(
                        Entry { id: old(bw).wait.listener.id, state: ListenerState::Waiting(waker) },
                    )
                } else {
                    &&& res.0 matches Some(r) && !r.leader()
                    &&& !final(bw).wait.waiting
                    &&& final(self).waiters() == after
                }
            },
    {
        if !bw.arrived {
            bw.arrived = true;
            bw.generation = self.generation;
            self.count = self.count + 1;
            if self.count < self.n {
                self.event.suspend(&mut bw.wait, waker);
                (None, Vec::new())
            } else {
                self.count = 0;
                self.generation = bw.generation + 1;
                let (_, wakers) = self.event.notify_tag(usize::MAX, false, ());
                (Some(BarrierWaitResult { is_leader: true }), wakers)
            }
        } else {
            match self.event.resume(&mut bw.wait, waker) {
                None => (None, Vec::new()),
                Some(w) => {
                    if bw.generation == self.generation && self.count < self.n {
                        self.event.suspend(&mut bw.wait, w);
                        (None, Vec::new())
                    } else {
                        (Some(BarrierWaitResult { is_leader: false }), Vec::new())
                    }
                },
            }
        }
    }

    /// A wait on the barrier is dropped: its listener leaves, passing on a
    /// notification it had not taken. (An arrival is not taken back.)
    pub fn drop_wait(&mut self, bw: BarrierWait) -> (wakers: Vec<W>)
        requires
            old(self).wf(),
        ensures
            final(self).wf(),
            final(self).size() == old(self).size(),
            final(self).arrived() == old(self).arrived(),
            final(self).generation() == old(self).generation(),
            final(self).next_key() == old(self).next_key(),
            (final(self).waiters(), final(self).notified(), wakers@) == after_drop(
                old(self).waiters(),
                old(self).notified(),
                bw.wait.listener.id,
            ),
    {
        self.event.drop_listener(bw.wait.listener)
    }
}

} // verus!
