//! A read/write lock.

use crate::event::{after_drop, after_notify, has_key, resumed, Entry, Event, ListenerState, Wait};
use vstd::prelude::*;

verus! {

/// A read/write lock: the data, the number of readers, whether a writer holds
/// it, and two events: one notified when the last reader leaves, one when a
/// writer leaves.
pub struct RwLock<T, W> {
    no_readers: Event<(), W>,
    no_writers: Event<(), W>,
    readers: usize,
    writer: bool,
    data: T,
}

/// Proof of holding the read end of a lock.
pub struct RwLockReadGuard {
    _private: (),
}

/// Proof of holding the write end of a lock.
pub struct RwLockWriteGuard {
    _private: (),
}

impl<T, W> RwLock<T, W> {
    /// The data.
    pub closed spec fn value(&self) -> T {
        self.data
    }

    /// The number of readers holding the lock.
    pub closed spec fn readers(&self) -> nat {
        self.readers as nat
    }

    /// Does a writer hold the lock?
    pub closed spec fn is_written(&self) -> bool {
        self.writer
    }

    /// The listeners waiting for the readers to leave (the writers' waits).
    pub closed spec fn write_waiters(&self) -> Seq<Entry<(), W>> {
        self.no_readers.entries()
    }

    /// How many of the writers' waits are notified.
    pub closed spec fn write_notified(&self) -> nat {
        self.no_readers.notified()
    }

    /// The key the next writer's wait gets.
    pub closed spec fn write_next_key(&self) -> u64 {
        self.no_readers.next_key()
    }

    /// The listeners waiting for a writer to leave (the readers' waits).
    pub closed spec fn read_waiters(&self) -> Seq<Entry<(), W>> {
        self.no_writers.entries()
    }

    /// How many of the readers' waits are notified.
    pub closed spec fn read_notified(&self) -> nat {
        self.no_writers.notified()
    }

    /// The key the next reader's wait gets.
    pub closed spec fn read_next_key(&self) -> u64 {
        self.no_writers.next_key()
    }

    /// Both events are well formed, and readers and a writer never hold the
    /// lock together.
    pub closed spec fn wf(&self) -> bool {
        &&& self.no_readers.wf()
        &&& self.no_writers.wf()
        &&& !(self.writer && self.readers > 0)
    }

    /// Readers and a writer never hold the lock at the same time.
    pub proof fn readers_exclude_writer(&self)
        requires
            self.wf(),
        ensures
            !(self.is_written() && self.readers() > 0),
    {
    }

    /// Creates an unlocked lock holding `data`.
    pub fn new(data: T) -> (lock: Self)
        ensures
            lock.wf(),
            lock.value() == data,
            lock.readers() == 0,
            !lock.is_written(),
            lock.write_waiters().len() == 0,
            lock.read_waiters().len() == 0,
            lock.write_notified() == 0,
            lock.read_notified() == 0,
            lock.write_next_key() == 0,
            lock.read_next_key() == 0,
    {
        RwLock { no_readers: Event::new(), no_writers: Event::new(), readers: 0, writer: false, data }
    }

    /// Unwraps the data.
    pub fn into_inner(self) -> (data: T)
        ensures
            data == self.value(),
    {
        self.data
    }

    /// The data, for a caller that holds the lock exclusively.
    pub fn get_mut(&mut self) -> (data: &mut T)
        ensures
            *data == old(self).value(),
            final(self).value() == *final(data),
            final(self).readers() == old(self).readers(),
            final(self).is_written() == old(self).is_written(),
            final(self).write_waiters() == old(self).write_waiters(),
            final(self).read_waiters() == old(self).read_waiters(),
            final(self).write_notified() == old(self).write_notified(),
            final(self).read_notified() == old(self).read_notified(),
            final(self).write_next_key() == old(self).write_next_key(),
            final(self).read_next_key() == old(self).read_next_key(),
            final(self).wf() == old(self).wf(),
    {
        &mut self.data
    }

    /// Takes the read end unless a writer holds the lock.
    pub fn try_read(&mut self) -> (guard: Option<RwLockReadGuard>)
        requires
            old(self).wf(),
            old(self).readers() < usize::MAX,
        ensures
            final(self).wf(),
            guard is Some <==> !old(self).is_written(),
            final(self).readers() == if old(self).is_written() {
                old(self).readers()
            } else {
                old(self).readers() + 1
            },
            final(self).is_written() == old(self).is_written(),
            final(self).value() == old(self).value(),
            final(self).write_waiters() == old(self).write_waiters(),
            final(self).read_waiters() == old(self).read_waiters(),
            final(self).write_notified() == old(self).write_notified(),
            final(self).read_notified() == old(self).read_notified(),
            final(self).write_next_key() == old(self).write_next_key(),
            final(self).read_next_key() == old(self).read_next_key(),
    {
        if self.writer {
            None
        } else {
            self.readers = self.readers + 1;
            Some(RwLockReadGuard { _private: () })
        }
    }

    /// Takes the write end if no reader and no writer holds the lock.
    pub fn try_write(&mut self) -> (guard: Option<RwLockWriteGuard>)
        requires
            old(self).wf(),
        ensures
            final(self).wf(),
            guard is Some <==> (!old(self).is_written() && old(self).readers() == 0),
            final(self).is_written() == (old(self).is_written() || old(self).readers() == 0),
            final(self).readers() == old(self).readers(),
            final(self).value() == old(self).value(),
            final(self).write_waiters() == old(self).write_waiters(),
            final(self).read_waiters() == old(self).read_waiters(),
            final(self).write_notified() == old(self).write_notified(),
            final(self).read_notified() == old(self).read_notified(),
            final(self).write_next_key() == old(self).write_next_key(),
            final(self).read_next_key() == old(self).read_next_key(),
    {
        if self.writer || self.readers > 0 {
            None
        } else {
            self.writer = true;
            Some(RwLockWriteGuard { _private: () })
        }
    }

    /// The data, read through the lock.
    pub fn get(&self) -> (data: &T)
        ensures
            *data == self.value(),
    {
        &self.data
    }

    /// The data, written through the write end.
    pub fn get_guarded_mut(&mut self, guard: &RwLockWriteGuard) -> (data: &mut T)
        ensures
            *data == old(self).value(),
            final(self).value() == *final(data),
            final(self).readers() == old(self).readers(),
            final(self).is_written() == old(self).is_written(),
            final(self).write_waiters() == old(self).write_waiters(),
            final(self).read_waiters() == old(self).read_waiters(),
            final(self).write_notified() == old(self).write_notified(),
            final(self).read_notified() == old(self).read_notified(),
            final(self).write_next_key() == old(self).write_next_key(),
            final(self).read_next_key() == old(self).read_next_key(),
            final(self).wf() == old(self).wf(),
    {
        &mut self.data
    }

    /// A reader leaves. When it was the last, one writer's wait is notified;
    /// the wakers to wake are returned.
    pub fn release_read(&mut self, guard: RwLockReadGuard) -> (wakers: Vec<W>)
        requires
            old(self).wf(),
            old(self).readers() > 0,
        ensures
            final(self).wf(),
            final(self).readers() == old(self).readers() - 1,
            final(self).is_written() == old(self).is_written(),
            final(self).value() == old(self).value(),
            final(self).read_waiters() == old(self).read_waiters(),
            final(self).read_notified() == old(self).read_notified(),
            final(self).write_next_key() == old(self).write_next_key(),
            final(self).read_next_key() == old(self).read_next_key(),
            old(self).readers() == 1 ==> (
                final(self).write_waiters(),
                final(self).write_notified(),
                wakers@,
            ) == after_notify(old(self).write_waiters(), old(self).write_notified(), 1, false, ()),
            old(self).readers() > 1 ==> {
                &&& final(self).write_waiters() == old(self).write_waiters()
                &&& final(self).write_notified() == old(self).write_notified()
                &&& wakers@.len() == 0
            },
    {
        self.readers = self.readers - 1;
        if self.readers == 0 {
            let (_, wakers) = self.no_readers.notify_tag(1, false, ());
            wakers
        } else {
            Vec::new()
        }
    }

    /// The writer leaves: one reader's wait and one writer's wait are
    /// notified; the readers' wakers, then the writers', are returned.
    pub fn release_write(&mut self, guard: RwLockWriteGuard) -> (wakers: Vec<W>)
        requires
            old(self).wf(),
        ensures
            final(self).wf(),
            !final(self).is_written(),
            final(self).readers() == old(self).readers(),
            final(self).value() == old(self).value(),
            final(self).write_next_key() == old(self).write_next_key(),
            final(self).read_next_key() == old(self).read_next_key(),
            ({
                let (read_waiters, read_notified, read_wakers) = after_notify(
                    old(self).read_waiters(),
                    old(self).read_notified(),
                    1,
                    false,
                    (),
                );
                let (write_waiters, write_notified, write_wakers) = after_notify(
                    old(self).write_waiters(),
                    old(self).write_notified(),
                    1,
                    false,
                    (),
                );
                &&& final(self).read_waiters() == read_waiters
                &&& final(self).read_notified() == read_notified
                &&& final(self).write_waiters() == write_waiters
                &&& final(self).write_notified() == write_notified
                &&& wakers@ == read_wakers + write_wakers
            }),
    {
        self.writer = false;
        let (_, mut wakers) = self.no_writers.notify_tag(1, false, ());
        let (_, mut more) = self.no_readers.notify_tag(1, false, ());
        wakers.append(&mut more);
        wakers
    }

    /// Can another wait start?
    pub fn can_wait_read(&self) -> (ok: bool)
        ensures
            ok == (self.read_next_key() < u64::MAX),
    {
        self.no_writers.can_listen()
    }

    /// Can another wait start?
    pub fn can_wait_write(&self) -> (ok: bool)
        ensures
            ok == (self.write_next_key() < u64::MAX),
    {
        self.no_readers.can_listen()
    }

    /// The number of readers holding the lock.
    pub fn reader_count(&self) -> (n: usize)
        ensures
            n == self.readers(),
    {
        self.readers
    }

    /// Starts taking the read end: a wait for a writer to leave.
    pub fn read(&mut self) -> (wait: Wait)
        requires
            old(self).wf(),
            old(self).read_next_key() < u64::MAX,
        ensures
            final(self).wf(),
            !wait.waiting,
            !has_key(final(self).read_waiters(), wait.listener.id),
            wait.listener.id < final(self).read_next_key(),
            final(self).read_next_key() == old(self).read_next_key() + 1,
            final(self).write_next_key() == old(self).write_next_key(),
            final(self).readers() == old(self).readers(),
            final(self).is_written() == old(self).is_written(),
            final(self).value() == old(self).value(),
            final(self).read_waiters() == old(self).read_waiters(),
            final(self).write_waiters() == old(self).write_waiters(),
            final(self).read_notified() == old(self).read_notified(),
            final(self).write_notified() == old(self).write_notified(),
    {
        self.no_writers.start_wait()
    }

    /// Starts taking the write end: a wait for the readers to leave.
    pub fn write(&mut self) -> (wait: Wait)
        requires
            old(self).wf(),
            old(self).write_next_key() < u64::MAX,
        ensures
            final(self).wf(),
            !wait.waiting,
            !has_key(final(self).write_waiters(), wait.listener.id),
            wait.listener.id < final(self).write_next_key(),
            final(self).write_next_key() == old(self).write_next_key() + 1,
            final(self).read_next_key() == old(self).read_next_key(),
            final(self).readers() == old(self).readers(),
            final(self).is_written() == old(self).is_written(),
            final(self).value() == old(self).value(),
            final(self).read_waiters() == old(self).read_waiters(),
            final(self).write_waiters() == old(self).write_waiters(),
            final(self).read_notified() == old(self).read_notified(),
            final(self).write_notified() == old(self).write_notified(),
    {
        self.no_readers.start_wait()
    }

    /// Polls a read in progress. Once its wait may go on, the read end is
    /// taken unless a writer holds the lock; otherwise it waits again.
    pub fn poll_read(&mut self, wait: &mut Wait, waker: W) -> (guard: Option<RwLockReadGuard>)
        requires
            old(self).wf(),
            old(self).readers() < usize::MAX,
            old(wait).listener.id < old(self).read_next_key(),
            old(wait).waiting || !has_key(old(self).read_waiters(), old(wait).listener.id),
        ensures
            final(self).wf(),
            final(self).value() == old(self).value(),
            final(self).is_written() == old(self).is_written(),
            final(self).write_waiters() == old(self).write_waiters(),
            final(self).write_notified() == old(self).write_notified(),
            final(self).read_next_key() == old(self).read_next_key(),
            final(self).write_next_key() == old(self).write_next_key(),
            final(wait).listener == old(wait).listener,
            final(wait).waiting || !has_key(final(self).read_waiters(), final(wait).listener.id),
            ({
                let (go, after, n) = resumed(
                    old(self).read_waiters(),
                    old(self).read_notified(),
                    old(wait).listener.id,
                    old(wait).waiting,
                    waker,
                );
                if !go {
                    &&& guard is None
                    &&& final(wait).waiting
                    &&& final(self).readers() == old(self).readers()
                    &&& final(self).read_waiters() == after
                    &&& final(self).read_notified() == n
                } else if !old(self).is_written() {
                    &&& guard is Some
                    &&& !final(wait).waiting
                    &&& final(self).readers() == old(self).readers() + 1
                    &&& final(self).read_waiters() == after
                    &&& final(self).read_notified() == n
                } else {
                    &&& guard is None
                    &&& final(wait).waiting
                    &&& final(self).readers() == old(self).readers()
                    &&& final(self).read_waiters() == after.push(
                        Entry { id: old(wait).listener.id, state: ListenerState::Waiting(waker) },
                    )
                    &&& final(self).read_notified() == n
                }
            }),
    {
        match self.no_writers.resume(wait, waker) {
            None => None,
            Some(w) => match self.try_read() {
                Some(guard) => Some(guard),
                None => {
                    self.no_writers.suspend(wait, w);
                    None
                },
            },
        }
    }

    /// Polls a write in progress. Once its wait may go on, the write end is
    /// taken if no reader and no writer holds the lock; otherwise it waits
    /// again.
    pub fn poll_write(&mut self, wait: &mut Wait, waker: W) -> (guard: Option<RwLockWriteGuard>)
        requires
            old(self).wf(),
            old(wait).listener.id < old(self).write_next_key(),
            old(wait).waiting || !has_key(old(self).write_waiters(), old(wait).listener.id),
        ensures
            final(self).wf(),
            final(self).value() == old(self).value(),
            final(self).readers() == old(self).readers(),
            final(self).read_waiters() == old(self).read_waiters(),
            final(self).read_notified() == old(self).read_notified(),
            final(self).read_next_key() == old(self).read_next_key(),
            final(self).write_next_key() == old(self).write_next_key(),
            final(wait).listener == old(wait).listener,
            final(wait).waiting || !has_key(final(self).write_waiters(), final(wait).listener.id),
            ({
                let (go, after, n) = resumed(
                    old(self).write_waiters(),
                    old(self).write_notified(),
                    old(wait).listener.id,
                    old(wait).waiting,
                    waker,
                );
                if !go {
                    &&& guard is None
                    &&& final(wait).waiting
                    &&& final(self).is_written() == old(self).is_written()
                    &&& final(self).write_waiters() == after
                    &&& final(self).write_notified() == n
                } else if !old(self).is_written() && old(self).readers() == 0 {
                    &&& guard is Some
                    &&& !final(wait).waiting
                    &&& final(self).is_written()
                    &&& final(self).write_waiters() == after
                    &&& final(self).write_notified() == n
                } else {
                    &&& guard is None
                    &&& final(wait).waiting
                    &&& final(self).is_written() == old(self).is_written()
                    &&& final(self).write_waiters() == after.push(
                        Entry { id: old(wait).listener.id, state: ListenerState::Waiting(waker) },
                    )
                    &&& final(self).write_notified() == n
                }
            }),
    {
        match self.no_readers.resume(wait, waker) {
            None => None,
            Some(w) => match self.try_write() {
                Some(guard) => Some(guard),
                None => {
                    self.no_readers.suspend(wait, w);
                    None
                },
            },
        }
    }

    /// A read in progress is dropped: its listener leaves, passing on a
    /// notification it had not taken.
    pub fn drop_read(&mut self, wait: Wait) -> (wakers: Vec<W>)
        requires
            old(self).wf(),
        ensures
            final(self).wf(),
            final(self).value() == old(self).value(),
            final(self).readers() == old(self).readers(),
            final(self).is_written() == old(self).is_written(),
            final(self).write_waiters() == old(self).write_waiters(),
            final(self).write_notified() == old(self).write_notified(),
            final(self).read_next_key() == old(self).read_next_key(),
            final(self).write_next_key() == old(self).write_next_key(),
            (final(self).read_waiters(), final(self).read_notified(), wakers@) == after_drop(
                old(self).read_waiters(),
                old(self).read_notified(),
                wait.listener.id,
            ),
    {
        self.no_writers.drop_listener(wait.listener)
    }

    /// A write in progress is dropped: its listener leaves, passing on a
    /// notification it had not taken.
    pub fn drop_write(&mut self, wait: Wait) -> (wakers: Vec<W>)
        requires
            old(self).wf(),
        ensures
            final(self).wf(),
            final(self).value() == old(self).value(),
            final(self).readers() == old(self).readers(),
            final(self).is_written() == old(self).is_written(),
            final(self).read_waiters() == old(self).read_waiters(),
            final(self).read_notified() == old(self).read_notified(),
            final(self).read_next_key() == old(self).read_next_key(),
            final(self).write_next_key() == old(self).write_next_key(),
            (final(self).write_waiters(), final(self).write_notified(), wakers@) == after_drop(
                old(self).write_waiters(),
                old(self).write_notified(),
                wait.listener.id,
            ),
    {
        self.no_readers.drop_listener(wait.listener)
    }
}

} // verus!
