//! A channel with many senders and many receivers.
//!
//! Items come out in the order they went in. A receiver that waits is handed
//! the next item directly; otherwise items queue up. The channel closes when
//! the last sender or the last receiver goes away; waiting receivers are then
//! woken, and receivers still drain the items left before they see it closed.

use crate::event::{
    after_drop, after_poll, removed_key_is_gone, has_key, key_index, min_nat, notify_entries, reach, wakers_of, Entry, Event, EventListener,
    ListenerState, Poll,
};
use crate::queue::Queue;
use vstd::prelude::*;

verus! {

/// The channel has been closed.
#[derive(Debug)]
pub struct ChannelClosed;

/// Why `try_recv` gave no item.
#[derive(Debug, PartialEq, Eq)]
pub enum TryRecvError {
    /// The channel has been closed.
    Closed,
    /// The channel is empty.
    Empty,
}

impl ChannelClosed {
    /// The message that describes the error.
    pub fn message(&self) -> (text: &'static str)
        ensures
            text@ == "channel closed"@,
    {
        "channel closed"
    }
}

impl TryRecvError {
    /// The message that describes the error.
    pub fn message(&self) -> (text: &'static str)
        ensures
            text@ == (match self {
                TryRecvError::Closed => "channel closed"@,
                TryRecvError::Empty => "channel empty"@,
            }),
    {
        match self {
            TryRecvError::Closed => "channel closed",
            TryRecvError::Empty => "channel empty",
        }
    }

    /// The error behind this one: a closed channel for `Closed`.
    pub fn cause(&self) -> (cause: Option<ChannelClosed>)
        ensures
            cause is Some <==> *self == TryRecvError::Closed,
    {
        match self {
            TryRecvError::Closed => Some(ChannelClosed),
            TryRecvError::Empty => None,
        }
    }
}

/// A receive in progress: the listener it waits with, and whether it is
/// waiting on that listener.
pub struct Recv {
    pub listener: EventListener,
    pub waiting: bool,
}

/// The state that the senders and receivers of a channel share.
pub struct Channel<T, W> {
    data: Queue<T>,
    closed: bool,
    senders: usize,
    receivers: usize,
    event: Event<Option<T>, W>,
}

/// Creates a channel with one sender and one receiver.
pub fn channel<T, W>() -> (chan: Channel<T, W>)
    ensures
        chan.wf(),
        chan.items() == Seq::<T>::empty(),
        !chan.is_closed(),
        chan.senders() == 1,
        chan.receivers() == 1,
        chan.listeners() == Seq::<Entry<Option<T>, W>>::empty(),
        chan.notified() == 0,
        chan.next_key() == 0,
{
    Channel { data: Queue::new(0), closed: false, senders: 1, receivers: 1, event: Event::new() }
}

/// `None` for each of `n` listeners.
pub open spec fn nones<T>(n: nat) -> Seq<Option<T>> {
    Seq::new(n, |i: int| None::<T>)
}

/// One pass over the queue: an item is taken if there is one; otherwise a
/// closed channel answers that it is closed; otherwise the receive waits,
/// registering its listener with `waker`.
pub open spec fn recv_from_queue<T, W>(
    items: Seq<T>,
    closed: bool,
    listeners: Seq<Entry<Option<T>, W>>,
    id: u64,
    waker: W,
    r: Poll<Result<T, ChannelClosed>>,
    items2: Seq<T>,
    listeners2: Seq<Entry<Option<T>, W>>,
    waiting2: bool,
) -> bool {
    if items.len() > 0 {
        &&& r == Poll::Ready(Ok::<T, ChannelClosed>(items[0]))
        &&& items2 == items.drop_first()
        &&& listeners2 == listeners
        &&& !waiting2
    } else if closed {
        &&& r == Poll::Ready(Err::<T, ChannelClosed>(ChannelClosed))
        &&& items2 == items
        &&& listeners2 == listeners
        &&& !waiting2
    } else {
        &&& r is Pending
        &&& items2 == items
        &&& listeners2 == listeners.push(Entry { id, state: ListenerState::Waiting(waker) })
        &&& waiting2
    }
}

/// A receive drains the queue before it reports the channel closed: with
/// items queued it takes the oldest, closed or not, and it reports the
/// channel closed only when the queue is empty and the channel closed.
pub proof fn receive_drains_before_closed<T, W>(
    items: Seq<T>,
    closed: bool,
    listeners: Seq<Entry<Option<T>, W>>,
    id: u64,
    waker: W,
    r: Poll<Result<T, ChannelClosed>>,
    items2: Seq<T>,
    listeners2: Seq<Entry<Option<T>, W>>,
    waiting2: bool,
)
    requires
        recv_from_queue(items, closed, listeners, id, waker, r, items2, listeners2, waiting2),
    ensures
        items.len() > 0 ==> r == Poll::Ready(Ok::<T, ChannelClosed>(items[0])) && items2
            == items.drop_first() && !waiting2,
        r == Poll::Ready(Err::<T, ChannelClosed>(ChannelClosed)) ==> items.len() == 0 && closed,
        r is Pending ==> items.len() == 0 && !closed && waiting2,
        r is Ready ==> listeners2 == listeners,
{
}

impl<T, W> Channel<T, W> {
    /// The items waiting to be received, oldest first.
    pub closed spec fn items(&self) -> Seq<T> {
        self.data@
    }

    /// Has the channel been closed?
    pub closed spec fn is_closed(&self) -> bool {
        self.closed
    }

    /// The number of senders.
    pub closed spec fn senders(&self) -> nat {
        self.senders as nat
    }

    /// The number of receivers.
    pub closed spec fn receivers(&self) -> nat {
        self.receivers as nat
    }

    /// The receivers' listeners, oldest first.
    pub closed spec fn listeners(&self) -> Seq<Entry<Option<T>, W>> {
        self.event.entries()
    }

    /// How many of the listeners are notified.
    pub closed spec fn notified(&self) -> nat {
        self.event.notified()
    }

    /// The key the next listener gets.
    pub closed spec fn next_key(&self) -> u64 {
        self.event.next_key()
    }

    /// The listeners are well formed, and the channel is closed exactly when
    /// it has no senders or no receivers left.
    pub closed spec fn wf(&self) -> bool {
        &&& self.event.wf()
        &&& self.closed <==> (self.senders == 0 || self.receivers == 0)
    }

    /// A closed channel has lost all its senders or all its receivers.
    pub proof fn closed_iff_no_senders_or_receivers(&self)
        requires
            self.wf(),
        ensures
            self.is_closed() <==> (self.senders() == 0 || self.receivers() == 0),
            self.notified() <= self.listeners().len(),
    {
    }

    /// The listeners of a well-formed channel: the notified ones come first,
    /// every key is distinct, and every key is below the next key.
    pub proof fn listeners_in_order(&self)
        requires
            self.wf(),
        ensures
            self.notified() <= self.listeners().len(),
            forall|i: int|
                0 <= i < self.listeners().len() ==> ((#[trigger] self.listeners()[i]).state is Notified
                    <==> i < self.notified()),
            forall|i: int, j: int|
                0 <= i < j < self.listeners().len() ==> #[trigger] self.listeners()[i].id
                    != #[trigger] self.listeners()[j].id,
            forall|i: int|
                0 <= i < self.listeners().len() ==> (#[trigger] self.listeners()[i]).id
                    < self.next_key(),
    {
    }

    /// Closing a well-formed channel (as the last sender's or receiver's drop
    /// does) leaves every listener notified, each one that was waiting with
    /// `None`, so that its next poll finds the channel closed.
    pub proof fn closing_notifies_every_listener(&self)
        requires
            self.wf(),
        ensures
            ({
                let after = notify_entries(
                    self.listeners(),
                    self.notified() as int,
                    nones::<T>((self.listeners().len() - self.notified()) as nat),
                    false,
                );
                &&& after.len() == self.listeners().len()
                &&& forall|i: int|
                    0 <= i < after.len() ==> (#[trigger] after[i]).id == self.listeners()[i].id
                        && after[i].state is Notified
                &&& forall|i: int|
                    self.notified() <= i < after.len() ==> (#[trigger] after[i]).state
                        == ListenerState::<Option<T>, W>::Notified(None, false)
            }),
    {
    }

    /// The number of senders.
    pub fn sender_count(&self) -> (n: usize)
        ensures
            n == self.senders(),
    {
        self.senders
    }

    /// The number of receivers.
    pub fn receiver_count(&self) -> (n: usize)
        ensures
            n == self.receivers(),
    {
        self.receivers
    }

    /// Can another receive start?
    pub fn can_listen(&self) -> (ok: bool)
        ensures
            ok == (self.next_key() < u64::MAX),
    {
        self.event.can_listen()
    }

    /// Closes the channel and notifies every listener with `None`.
    fn close(&mut self) -> (wakers: Vec<W>)
        requires
            old(self).event.wf(),
        ensures
            final(self).event.wf(),
            final(self).closed,
            final(self).data@ == old(self).data@,
            final(self).senders == old(self).senders,
            final(self).receivers == old(self).receivers,
            final(self).event.next_key() == old(self).event.next_key(),
            final(self).event.notified() == old(self).event.entries().len(),
            final(self).event.entries() == notify_entries(
                old(self).event.entries(),
                old(self).event.notified() as int,
                nones::<T>((old(self).event.entries().len() - old(self).event.notified()) as nat),
                false,
            ),
            wakers@ == wakers_of(
                old(self).event.entries().subrange(
                    old(self).event.notified() as int,
                    old(self).event.entries().len() as int,
                ),
            ),
    {
        self.closed = true;
        let k = self.event.reach(usize::MAX, false);
        let len = self.event.len();
        let n = self.event.notified_count();
        assert(k == len - n);
        let mut tags: Vec<Option<T>> = Vec::new();
        let mut i: usize = 0;
        while i < k
            invariant
                i <= k,
                tags@ == nones::<T>(i as nat),
            decreases k - i,
        {
            tags.push(None);
            i = i + 1;
            assert(tags@ =~= nones::<T>(i as nat));
        }
        let (_, wakers, _) = self.event.notify(usize::MAX, false, tags);
        assert(tags@.take(k as int) =~= tags@);
        wakers
    }

    /// Sends `item`. A closed channel refuses it. Otherwise, when no listener
    /// is notified and one is registered, the oldest registered listener is
    /// notified with the item (and its waker returned); else the item joins
    /// the queue.
    pub fn send(&mut self, item: T) -> (res: (Result<(), ChannelClosed>, Vec<W>))
        requires
            old(self).wf(),
        ensures
            final(self).wf(),
            final(self).is_closed() == old(self).is_closed(),
            final(self).senders() == old(self).senders(),
            final(self).receivers() == old(self).receivers(),
            final(self).next_key() == old(self).next_key(),
            old(self).is_closed() ==> {
                &&& res.0 is Err
                &&& res.1@.len() == 0
                &&& final(self).items() == old(self).items()
                &&& final(self).listeners() == old(self).listeners()
                &&& final(self).notified() == old(self).notified()
            },
            !old(self).is_closed() ==> {
                let k = reach(old(self).listeners().len(), old(self).notified(), 1, false);
                &&& res.0 is Ok
                &&& final(self).listeners() == notify_entries(
                    old(self).listeners(),
                    old(self).notified() as int,
                    seq![Some(item)].take(k as int),
                    false,
                )
                &&& final(self).notified() == old(self).notified() + k
                &&& res.1@ == wakers_of(
                    old(self).listeners().subrange(
                        old(self).notified() as int,
                        (old(self).notified() + k) as int,
                    ),
                )
                &&& final(self).items() == if k == 0 {
                    old(self).items().push(item)
                } else {
                    old(self).items()
                }
            },
    {
        if self.closed {
            return (Err(ChannelClosed), Vec::new());
        }
        let mut tags: Vec<Option<T>> = Vec::new();
        tags.push(Some(item));
        assert(tags@ =~= seq![Some(item)]);
        let (n, wakers, mut left) = self.event.notify(1, false, tags);
        if n == 0 {
            assert(left@ =~= seq![Some(item)]);
            let tag = left.remove(0);
            match tag {
                Some(it) => self.data.push(it),
                None => {},
            }
        }
        (Ok(()), wakers)
    }

    /// Another sender for the channel: one more sender.
    pub fn clone_sender(&mut self)
        requires
            old(self).wf(),
            old(self).senders() > 0,
            old(self).senders() < usize::MAX,
        ensures
            final(self).wf(),
            final(self).senders() == old(self).senders() + 1,
            final(self).receivers() == old(self).receivers(),
            final(self).is_closed() == old(self).is_closed(),
            final(self).items() == old(self).items(),
            final(self).listeners() == old(self).listeners(),
            final(self).notified() == old(self).notified(),
            final(self).next_key() == old(self).next_key(),
    {
        self.senders = self.senders + 1;
    }

    /// Another receiver for the channel: one more receiver.
    pub fn clone_receiver(&mut self)
        requires
            old(self).wf(),
            old(self).receivers() > 0,
            old(self).receivers() < usize::MAX,
        ensures
            final(self).wf(),
            final(self).receivers() == old(self).receivers() + 1,
            final(self).senders() == old(self).senders(),
            final(self).is_closed() == old(self).is_closed(),
            final(self).items() == old(self).items(),
            final(self).listeners() == old(self).listeners(),
            final(self).notified() == old(self).notified(),
            final(self).next_key() == old(self).next_key(),
    {
        self.receivers = self.receivers + 1;
    }

    /// A sender goes away. When it was the last, the channel closes and every
    /// listener is notified with `None`; their wakers are returned.
    pub fn drop_sender(&mut self) -> (wakers: Vec<W>)
        requires
            old(self).wf(),
            old(self).senders() > 0,
        ensures
            final(self).wf(),
            final(self).senders() == old(self).senders() - 1,
            final(self).receivers() == old(self).receivers(),
            final(self).items() == old(self).items(),
            final(self).next_key() == old(self).next_key(),
            old(self).senders() > 1 ==> {
                &&& final(self).is_closed() == old(self).is_closed()
                &&& final(self).listeners() == old(self).listeners()
                &&& final(self).notified() == old(self).notified()
                &&& wakers@.len() == 0
            },
            old(self).senders() == 1 ==> {
                &&& final(self).is_closed()
                &&& final(self).notified() == old(self).listeners().len()
                &&& final(self).listeners() == notify_entries(
                    old(self).listeners(),
                    old(self).notified() as int,
                    nones::<T>((old(self).listeners().len() - old(self).notified()) as nat),
                    false,
                )
                &&& wakers@ == wakers_of(
                    old(self).listeners().subrange(
                        old(self).notified() as int,
                        old(self).listeners().len() as int,
                    ),
                )
            },
    {
        self.senders = self.senders - 1;
        if self.senders == 0 {
            self.close()
        } else {
            Vec::new()
        }
    }

    /// A receiver goes away. When it was the last, the channel closes and
    /// every listener is notified with `None`; their wakers are returned.
    pub fn drop_receiver(&mut self) -> (wakers: Vec<W>)
        requires
            old(self).wf(),
            old(self).receivers() > 0,
        ensures
            final(self).wf(),
            final(self).receivers() == old(self).receivers() - 1,
            final(self).senders() == old(self).senders(),
            final(self).items() == old(self).items(),
            final(self).next_key() == old(self).next_key(),
            old(self).receivers() > 1 ==> {
                &&& final(self).is_closed() == old(self).is_closed()
                &&& final(self).listeners() == old(self).listeners()
                &&& final(self).notified() == old(self).notified()
                &&& wakers@.len() == 0
            },
            old(self).receivers() == 1 ==> {
                &&& final(self).is_closed()
                &&& final(self).notified() == old(self).listeners().len()
                &&& final(self).listeners() == notify_entries(
                    old(self).listeners(),
                    old(self).notified() as int,
                    nones::<T>((old(self).listeners().len() - old(self).notified()) as nat),
                    false,
                )
                &&& wakers@ == wakers_of(
                    old(self).listeners().subrange(
                        old(self).notified() as int,
                        old(self).listeners().len() as int,
                    ),
                )
            },
    {
        self.receivers = self.receivers - 1;
        if self.receivers == 0 {
            self.close()
        } else {
            Vec::new()
        }
    }

    /// Takes the oldest item. With none queued the answer is `Closed` on a
    /// closed channel and `Empty` otherwise.
    pub fn try_recv(&mut self) -> (res: Result<T, TryRecvError>)
        requires
            old(self).wf(),
        ensures
            final(self).wf(),
            final(self).is_closed() == old(self).is_closed(),
            final(self).senders() == old(self).senders(),
            final(self).receivers() == old(self).receivers(),
            final(self).listeners() == old(self).listeners(),
            final(self).notified() == old(self).notified(),
            final(self).next_key() == old(self).next_key(),
            old(self).items().len() > 0 ==> {
                &&& res == Ok::<T, TryRecvError>(old(self).items()[0])
                &&& final(self).items() == old(self).items().drop_first()
            },
            old(self).items().len() == 0 ==> {
                &&& res == Err::<T, TryRecvError>(
                    if old(self).is_closed() {
                        TryRecvError::Closed
                    } else {
                        TryRecvError::Empty
                    },
                )
                &&& final(self).items() == old(self).items()
            },
    {
        match self.data.pop() {
            Some(item) => Ok(item),
            None => {
                if self.closed {
                    Err(TryRecvError::Closed)
                } else {
                    Err(TryRecvError::Empty)
                }
            },
        }
    }

    /// Starts a receive with a new listener, not yet registered.
    pub fn recv(&mut self) -> (recv: Recv)
        requires
            old(self).wf(),
            old(self).next_key() < u64::MAX,
        ensures
            final(self).wf(),
            recv.listener.id == old(self).next_key(),
            !recv.waiting,
            !has_key(final(self).listeners(), recv.listener.id),
            recv.listener.id < final(self).next_key(),
            final(self).next_key() == old(self).next_key() + 1,
            final(self).is_closed() == old(self).is_closed(),
            final(self).senders() == old(self).senders(),
            final(self).receivers() == old(self).receivers(),
            final(self).items() == old(self).items(),
            final(self).listeners() == old(self).listeners(),
            final(self).notified() == old(self).notified(),
    {
        let listener = self.event.listen();
        proof {
            if has_key(self.event.entries(), listener.id) {
                let i = key_index(self.event.entries(), listener.id);
                assert(self.event.entries()[i].id < old(self).event.next_key());
            }
        }
        Recv { listener, waiting: false }
    }

    /// Polls a receive. A receive waiting on its listener first polls it: an
    /// item handed over is taken, a `None` sends it back to the queue, and
    /// otherwise it keeps waiting. A receive at the queue takes the oldest
    /// item, or reports a closed channel, or else registers its listener and
    /// waits.
    pub fn poll_recv(&mut self, recv: &mut Recv, waker: W) -> (r: Poll<Result<T, ChannelClosed>>)
        requires
            old(self).wf(),
            old(recv).listener.id < old(self).next_key(),
            old(recv).waiting || !has_key(old(self).listeners(), old(recv).listener.id),
        ensures
            final(self).wf(),
            final(recv).listener == old(recv).listener,
            final(recv).waiting || !has_key(final(self).listeners(), final(recv).listener.id),
            final(self).is_closed() == old(self).is_closed(),
            final(self).senders() == old(self).senders(),
            final(self).receivers() == old(self).receivers(),
            final(self).next_key() == old(self).next_key(),
            ({
                let (r1, mid, nmid) = if old(recv).waiting {
                    after_poll(old(self).listeners(), old(self).notified(), old(recv).listener.id, waker)
                } else {
                    (Poll::Ready(None), old(self).listeners(), old(self).notified())
                };
                match r1 {
                    Poll::Pending => {
                        &&& r is Pending
                        &&& final(recv).waiting
                        &&& final(self).items() == old(self).items()
                        &&& final(self).listeners() == mid
                        &&& final(self).notified() == nmid
                    },
                    Poll::Ready(Some(item)) => {
                        &&& r == Poll::Ready(Ok::<T, ChannelClosed>(item))
                        &&& !final(recv).waiting
                        &&& final(self).items() == old(self).items()
                        &&& final(self).listeners() == mid
                        &&& final(self).notified() == nmid
                    },
                    Poll::Ready(None) => {
                        &&& recv_from_queue(
                            old(self).items(),
                            old(self).is_closed(),
                            mid,
                            old(recv).listener.id,
                            waker,
                            r,
                            final(self).items(),
                            final(self).listeners(),
                            final(recv).waiting,
                        )
                        &&& final(self).notified() == nmid
                    },
                }
            }),
    {
        let mut waker = waker;
        if recv.waiting {
            let ghost before = self.event.entries();
            let (p, back) = self.event.poll(&recv.listener, waker);
            match p {
                Poll::Pending => {
                    return Poll::Pending;
                },
                Poll::Ready(Some(item)) => {
                    recv.waiting = false;
                    proof {
                        removed_key_is_gone(before, key_index(before, recv.listener.id));
                    }
                    return Poll::Ready(Ok(item));
                },
                Poll::Ready(None) => {
                    proof {
                        removed_key_is_gone(before, key_index(before, recv.listener.id));
                    }
                    match back {
                        Some(w) => {
                            waker = w;
                        },
                        None => {
                            assert(false);
                            return Poll::Pending;
                        },
                    }
                    recv.waiting = false;
                },
            }
        }
        match self.data.pop() {
            Some(item) => {
                return Poll::Ready(Ok(item));
            },
            None => {},
        }
        if self.closed {
            return Poll::Ready(Err(ChannelClosed));
        }
        recv.waiting = true;
        let (p, _) = self.event.poll(&recv.listener, waker);
        match p {
            Poll::Pending => Poll::Pending,
            Poll::Ready(_) => {
                assert(false);
                Poll::Pending
            },
        }
    }

    /// A receive is dropped: its listener is dropped from the event, passing
    /// on a notification it had not taken.
    pub fn drop_recv(&mut self, recv: Recv) -> (wakers: Vec<W>)
        requires
            old(self).wf(),
        ensures
            final(self).wf(),
            final(self).is_closed() == old(self).is_closed(),
            final(self).senders() == old(self).senders(),
            final(self).receivers() == old(self).receivers(),
            final(self).items() == old(self).items(),
            final(self).next_key() == old(self).next_key(),
            (final(self).listeners(), final(self).notified(), wakers@) == after_drop(
                old(self).listeners(),
                old(self).notified(),
                recv.listener.id,
            ),
    {
        self.event.drop_listener(recv.listener)
    }
}

} // verus!
