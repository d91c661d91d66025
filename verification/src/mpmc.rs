//! A channel with many producers and many consumers, built on the list of
//! `notify`.
//!
//! Sending hands the value to a waiting receive when one is notified by it,
//! and queues it otherwise. The channel is closed for receiving when no
//! sender is left, and for sending when no receiver is left; the last
//! receiver to go empties the queue.

use crate::event::Poll;
use crate::notify::{after_list_notify, after_slot_drop, has_slot, slot_index_is_position, slot_index, Listener, Notify, Slot, SlotState};
use crate::queue::Queue;
use vstd::prelude::*;

verus! {

/// The error of a receive on a channel that has no sender left.
#[derive(Debug)]
pub struct ChannelClosed;

/// Why `try_recv` gave no value.
#[derive(Debug, PartialEq, Eq)]
pub enum TryRecvError {
    /// The channel is closed.
    Closed,
    /// The channel is empty.
    Empty,
}

/// A receive in progress: the listener it holds, if any.
pub struct Recv {
    pub listener: Option<Listener>,
}

/// The state that the senders and receivers of a channel share.
pub struct Channel<T, W> {
    queue: Queue<T>,
    senders: usize,
    receivers: usize,
    send_open: Notify<Option<T>, W>,
}

/// `None` for each of `n` listeners.
pub open spec fn nones<T>(n: nat) -> Seq<Option<T>> {
    Seq::new(n, |i: int| None::<T>)
}

/// Creates a channel with one sender and one receiver and an empty queue
/// with room for at least `capacity` values.
pub fn channel<T, W>(capacity: usize) -> (chan: Channel<T, W>)
    ensures
        chan.wf(),
        chan.values() == Seq::<T>::empty(),
        chan.senders() == 1,
        chan.receivers() == 1,
        chan.listeners() == Seq::<Slot<Option<T>, W>>::empty(),
        chan.notified() == 0,
        chan.next_key() == 0,
{
    Channel { queue: Queue::new(capacity), senders: 1, receivers: 1, send_open: Notify::new() }
}

impl<T, W> Channel<T, W> {
    /// The queued values, oldest first.
    pub closed spec fn values(&self) -> Seq<T> {
        self.queue@
    }

    /// The number of senders.
    pub closed spec fn senders(&self) -> nat {
        self.senders as nat
    }

    /// The number of receivers.
    pub closed spec fn receivers(&self) -> nat {
        self.receivers as nat
    }

    /// The receives' listeners, oldest first.
    pub closed spec fn listeners(&self) -> Seq<Slot<Option<T>, W>> {
        self.send_open.slots()
    }

    /// How many of them count as notified.
    pub closed spec fn notified(&self) -> nat {
        self.send_open.notified()
    }

    /// The key the next listener gets.
    pub closed spec fn next_key(&self) -> u64 {
        self.send_open.next_key()
    }

    /// The listeners are well formed.
    pub closed spec fn wf(&self) -> bool {
        self.send_open.wf()
    }

    /// Sends `value`. With no receiver left the value comes back. Otherwise
    /// the listeners are topped up to one notified, the first one reached
    /// taking the value; if none is reached the value is queued. While a
    /// receiver is left, at most one listener may count as notified, unless
    /// none is left to notify.
    pub fn send(&mut self, value: T) -> (res: (Result<(), T>, Vec<W>))
        requires
            old(self).wf(),
            old(self).receivers() > 0 ==> old(self).listeners().len() <= old(self).notified()
                || old(self).notified() <= 1,
        ensures
            final(self).wf(),
            final(self).senders() == old(self).senders(),
            final(self).receivers() == old(self).receivers(),
            final(self).next_key() == old(self).next_key(),
            old(self).receivers() == 0 ==> {
                &&& res.0 == Err::<(), T>(value)
                &&& res.1@.len() == 0
                &&& final(self).values() == old(self).values()
                &&& final(self).listeners() == old(self).listeners()
                &&& final(self).notified() == old(self).notified()
            },
            old(self).receivers() > 0 ==> {
                let n = if old(self).listeners().len() <= old(self).notified() {
                    0
                } else {
                    (1 - old(self).notified()) as nat
                };
                let (k, after, w) = after_list_notify(
                    old(self).listeners(),
                    old(self).notified(),
                    n,
                    false,
                    seq![Some(value)],
                );
                &&& res.0 is Ok
                &&& final(self).listeners() == after
                &&& final(self).notified() == old(self).notified() + k
                &&& res.1@ == w
                &&& final(self).values() == if k == 0 {
                    old(self).values().push(value)
                } else {
                    old(self).values()
                }
            },
    {
        if self.receivers == 0 {
            return (Err(value), Vec::new());
        }
        let mut results: Vec<Option<T>> = Vec::new();
        results.push(Some(value));
        assert(results@ =~= seq![Some(value)]);
        let (n, wakers, mut left) = self.send_open.notify(1, results);
        if n == 0 {
            assert(left@ =~= seq![Some(value)]);
            let back = left.remove(0);
            match back {
                Some(v) => self.queue.push(v),
                None => {},
            }
        }
        (Ok(()), wakers)
    }

    /// The queue's capacity.
    pub fn capacity(&self) -> (capacity: usize)
        ensures
            capacity >= self.values().len(),
    {
        self.queue.capacity()
    }

    /// The number of queued values.
    pub fn len(&self) -> (len: usize)
        ensures
            len == self.values().len(),
    {
        self.queue.len()
    }

    /// Is the queue empty?
    pub fn is_empty(&self) -> (empty: bool)
        ensures
            empty == (self.values().len() == 0),
    {
        self.queue.is_empty()
    }

    /// The number of senders.
    pub fn sender_count(&self) -> (n: usize)
        ensures
            n == self.senders(),
    {
        self.senders
    }

    /// The number of receivers.
    pub fn receiver_count(&self) -> (n: usize)
        ensures
            n == self.receivers(),
    {
        self.receivers
    }

    /// The number of listeners in the list.
    pub fn listener_count(&self) -> (n: usize)
        ensures
            n == self.listeners().len(),
    {
        self.send_open.len()
    }

    /// The number of listeners counted as notified.
    pub fn notified_count(&self) -> (n: usize)
        ensures
            n == self.notified(),
    {
        self.send_open.notified_count()
    }

    /// Can another listener be created?
    pub fn can_listen(&self) -> (ok: bool)
        ensures
            ok == (self.next_key() < u64::MAX),
    {
        self.send_open.can_listen()
    }

    /// Was the listener of `recv`, if any, never polled to its result? (A
    /// taken result leaves a hole, which is not polled again.)
    pub fn can_poll(&self, recv: &Recv) -> (ok: bool)
        requires
            self.wf(),
        ensures
            ok == (recv.listener matches Some(l) ==> has_slot(self.listeners(), l.id) ==> !(
            self.listeners()[slot_index(self.listeners(), l.id)].state is Hole)),
    {
        match &recv.listener {
            None => true,
            Some(l) => !self.send_open.is_hole(l),
        }
    }

    /// Another sender: one more.
    pub fn clone_sender(&mut self)
        requires
            old(self).senders() < usize::MAX,
        ensures
            final(self).senders() == old(self).senders() + 1,
            final(self).receivers() == old(self).receivers(),
            final(self).values() == old(self).values(),
            final(self).listeners() == old(self).listeners(),
            final(self).notified() == old(self).notified(),
            final(self).next_key() == old(self).next_key(),
            final(self).wf() == old(self).wf(),
    {
        self.senders = self.senders + 1;
    }

    /// Another receiver: one more.
    pub fn clone_receiver(&mut self)
        requires
            old(self).receivers() < usize::MAX,
        ensures
            final(self).receivers() == old(self).receivers() + 1,
            final(self).senders() == old(self).senders(),
            final(self).values() == old(self).values(),
            final(self).listeners() == old(self).listeners(),
            final(self).notified() == old(self).notified(),
            final(self).next_key() == old(self).next_key(),
            final(self).wf() == old(self).wf(),
    {
        self.receivers = self.receivers + 1;
    }

    /// A sender goes away. When it was the last, every listener not yet
    /// notified is notified with `None`; their wakers are returned.
    pub fn drop_sender(&mut self) -> (wakers: Vec<W>)
        requires
            old(self).wf(),
            old(self).senders() > 0,
        ensures
            final(self).wf(),
            final(self).senders() == old(self).senders() - 1,
            final(self).receivers() == old(self).receivers(),
            final(self).values() == old(self).values(),
            final(self).next_key() == old(self).next_key(),
            old(self).senders() > 1 ==> {
                &&& final(self).listeners() == old(self).listeners()
                &&& final(self).notified() == old(self).notified()
                &&& wakers@.len() == 0
            },
            old(self).senders() == 1 ==> {
                let len = old(self).listeners().len();
                let nn = old(self).notified();
                let n = if len <= nn { 0 } else { (usize::MAX - nn) as nat };
                let (k, after, w) = after_list_notify(
                    old(self).listeners(),
                    nn,
                    n,
                    false,
                    nones::<T>((len - nn) as nat),
                );
                &&& final(self).listeners() == after
                &&& final(self).notified() == nn + k
                &&& wakers@ == w
            },
    {
        self.senders = self.senders - 1;
        if self.senders == 0 {
            let len = self.send_open.len();
            let nn = self.send_open.notified_count();
            let k = len - nn;
            let mut results: Vec<Option<T>> = Vec::new();
            let mut i: usize = 0;
            while i < k
                invariant
                    i <= k,
                    results@ == nones::<T>(i as nat),
                decreases k - i,
            {
                results.push(None);
                i = i + 1;
                assert(results@ =~= nones::<T>(i as nat));
            }
            let (_, wakers, _) = self.send_open.notify(usize::MAX, results);
            wakers
        } else {
            Vec::new()
        }
    }

    /// A receiver goes away. When it was the last, the queue is emptied.
    pub fn drop_receiver(&mut self)
        requires
            old(self).receivers() > 0,
        ensures
            final(self).receivers() == old(self).receivers() - 1,
            final(self).senders() == old(self).senders(),
            final(self).listeners() == old(self).listeners(),
            final(self).notified() == old(self).notified(),
            final(self).next_key() == old(self).next_key(),
            final(self).wf() == old(self).wf(),
            final(self).values() == if old(self).receivers() == 1 {
                Seq::<T>::empty()
            } else {
                old(self).values()
            },
    {
        self.receivers = self.receivers - 1;
        if self.receivers == 0 {
            self.queue.clear();
        }
    }

    /// Takes the oldest value. A channel with no sender left is closed,
    /// queued values or not; an empty one answers `Empty`.
    pub fn try_recv(&mut self) -> (res: Result<T, TryRecvError>)
        ensures
            final(self).senders() == old(self).senders(),
            final(self).receivers() == old(self).receivers(),
            final(self).listeners() == old(self).listeners(),
            final(self).notified() == old(self).notified(),
            final(self).next_key() == old(self).next_key(),
            final(self).wf() == old(self).wf(),
            old(self).senders() == 0 ==> res == Err::<T, TryRecvError>(TryRecvError::Closed)
                && final(self).values() == old(self).values(),
            old(self).senders() > 0 && old(self).values().len() > 0 ==> res == Ok::<
                T,
                TryRecvError,
            >(old(self).values()[0]) && final(self).values() == old(self).values().drop_first(),
            old(self).senders() > 0 && old(self).values().len() == 0 ==> res == Err::<
                T,
                TryRecvError,
            >(TryRecvError::Empty) && final(self).values() == old(self).values(),
    {
        if self.senders == 0 {
            return Err(TryRecvError::Closed);
        }
        match self.queue.pop() {
            Some(value) => Ok(value),
            None => Err(TryRecvError::Empty),
        }
    }

    /// Starts a receive, with no listener yet.
    pub fn recv(&self) -> (recv: Recv)
        ensures
            recv.listener is None,
    {
        Recv { listener: None }
    }

    /// Polls a receive. One that holds a listener answers a closed channel
    /// at once, and otherwise polls the listener: it waits while the listener
    /// waits and takes a value handed to it. Then the queue is tried; with
    /// nothing queued a closed channel is reported; otherwise the receive
    /// drops the listener it held and takes a new one, not yet registered.
    pub fn poll_recv(&mut self, recv: &mut Recv, waker: W) -> (r: Poll<Result<T, ChannelClosed>>)
        requires
            old(self).wf(),
            old(self).next_key() < u64::MAX,
            old(recv).listener matches Some(l) ==> {
                &&& l.id < old(self).next_key()
                &&& has_slot(old(self).listeners(), l.id) ==> !(old(self).listeners()[slot_index(
                    old(self).listeners(),
                    l.id,
                )].state is Hole)
            },
            old(recv).listener matches Some(l) ==> old(self).listeners().len() <= old(self).notified()
                || old(self).notified() <= 2,
        ensures
            final(self).wf(),
            final(self).senders() == old(self).senders(),
            final(self).receivers() == old(self).receivers(),
            old(recv).listener is Some && old(self).senders() == 0 ==> {
                &&& r == Poll::Ready(Err::<T, ChannelClosed>(ChannelClosed))
                &&& final(self).values() == old(self).values()
                &&& final(self).listeners() == old(self).listeners()
                &&& final(self).notified() == old(self).notified()
            },
            old(recv).listener is None && old(self).values().len() > 0 ==> {
                &&& r == Poll::Ready(Ok::<T, ChannelClosed>(old(self).values()[0]))
                &&& final(self).values() == old(self).values().drop_first()
                &&& final(self).listeners() == old(self).listeners()
            },
            old(recv).listener is None && old(self).values().len() == 0 && old(self).senders() == 0 ==> {
                &&& r == Poll::Ready(Err::<T, ChannelClosed>(ChannelClosed))
                &&& final(self).values() == old(self).values()
            },
            old(recv).listener is None && old(self).values().len() == 0 && old(self).senders() > 0 ==> {
                &&& r is Pending
                &&& final(recv).listener matches Some(l) && l.id == old(self).next_key()
                &&& final(self).values() == old(self).values()
                &&& final(self).listeners() == old(self).listeners()
                &&& final(self).next_key() == old(self).next_key() + 1
            },
            old(recv).listener is Some && old(self).senders() > 0 && has_slot(
                old(self).listeners(),
                old(recv).listener->0.id,
            ) ==> {
                let l = old(recv).listener->0;
                let p = slot_index(old(self).listeners(), l.id);
                match old(self).listeners()[p].state {
                    SlotState::Notified(Some(v), _) => {
                        &&& r == Poll::Ready(Ok::<T, ChannelClosed>(v))
                        &&& final(self).values() == old(self).values()
                        &&& final(self).listeners() == old(self).listeners().update(
                            p,
                            Slot { id: l.id, state: SlotState::Hole },
                        )
                    },
                    SlotState::Notified(None, _) => {
                        let holed = old(self).listeners().update(
                            p,
                            Slot { id: l.id, state: SlotState::Hole },
                        );
                        if old(self).values().len() > 0 {
                            &&& r == Poll::Ready(Ok::<T, ChannelClosed>(old(self).values()[0]))
                            &&& final(self).values() == old(self).values().drop_first()
                            &&& final(self).listeners() == holed
                            &&& final(self).notified() == old(self).notified()
                        } else {
                            &&& r is Pending
                            &&& final(recv).listener matches Some(l2) && l2.id == old(self).next_key()
                            &&& final(self).values() == old(self).values()
                            &&& final(self).listeners() == holed.remove(p)
                            &&& final(self).notified() == old(self).notified() - 1
                            &&& final(self).next_key() == old(self).next_key() + 1
                        }
                    },
                    _ => {
                        &&& r is Pending
                        &&& final(self).values() == old(self).values()
                        &&& final(self).listeners() == old(self).listeners().update(
                            p,
                            Slot { id: l.id, state: SlotState::Waiting(waker) },
                        )
                    },
                }
            },
            old(recv).listener is Some && old(self).senders() > 0 && !has_slot(
                old(self).listeners(),
                old(recv).listener->0.id,
            ) ==> {
                let l = old(recv).listener->0;
                &&& r is Pending
                &&& final(self).values() == old(self).values()
                &&& final(self).listeners() == old(self).listeners().push(
                    Slot { id: l.id, state: SlotState::Waiting(waker) },
                )
            },
    {
        let ghost mut pos: int = 0;
        match &recv.listener {
            Some(l) => {
                if self.senders == 0 {
                    return Poll::Ready(Err(ChannelClosed));
                }
                proof {
                    pos = slot_index(self.send_open.slots(), l.id);
                }
                let (p, _) = self.send_open.poll(l, waker);
                match p {
                    Poll::Pending => {
                        return Poll::Pending;
                    },
                    Poll::Ready(Some(v)) => {
                        return Poll::Ready(Ok(v));
                    },
                    Poll::Ready(None) => {},
                }
            },
            None => {},
        }
        match self.queue.pop() {
            Some(v) => {
                return Poll::Ready(Ok(v));
            },
            None => {},
        }
        if self.senders == 0 {
            return Poll::Ready(Err(ChannelClosed));
        }
        let fresh = self.send_open.listen();
        let mut old_listener = Some(fresh);
        std::mem::swap(&mut old_listener, &mut recv.listener);
        match old_listener {
            Some(l) => {
                proof {
                    if has_slot(old(self).listeners(), l.id) {
                        slot_index_is_position(self.send_open.slots(), pos);
                    }
                }
                let _ = self.send_open.drop_listener(l);
            },
            None => {},
        }
        Poll::Pending
    }

    /// A receive is dropped, and with it the listener it holds.
    pub fn drop_recv(&mut self, recv: Recv) -> (wakers: Vec<W>)
        requires
            old(self).wf(),
            recv.listener matches Some(l) ==> old(self).listeners().len() <= old(self).notified()
                || old(self).notified() <= 2,
        ensures
            final(self).wf(),
            final(self).senders() == old(self).senders(),
            final(self).receivers() == old(self).receivers(),
            final(self).values() == old(self).values(),
            final(self).next_key() == old(self).next_key(),
            recv.listener is None ==> final(self).listeners() == old(self).listeners()
                && final(self).notified() == old(self).notified() && wakers@.len() == 0,
            recv.listener matches Some(l) ==> (
                final(self).listeners(),
                final(self).notified(),
                wakers@,
            ) == after_slot_drop(old(self).listeners(), old(self).notified(), l.id),
    {
        match recv.listener {
            Some(l) => self.send_open.drop_listener(l),
            None => Vec::new(),
        }
    }
}

} // verus!
