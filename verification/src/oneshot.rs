//! A channel for a single value.
//!
//! The sender either places the value straight into the slot of a receiver
//! that waits, or leaves it in the channel. Sending uses the sender up, and
//! the sender's going away is recorded.

use crate::event::Poll;
use vstd::prelude::*;

verus! {

/// What the receiver is doing, as the sender sees it.
pub enum ReceiverState<W> {
    /// Waiting with this waker, its slot open for the value.
    Waiting(W),
    /// Alive but not waiting.
    Alive,
    /// Dropped, or done.
    Dropped,
}

/// The state of a oneshot channel: the value left in the channel, the
/// receiver's slot, whether the sender went away, what the receiver is doing,
/// and whether the receiver registered its slot.
pub struct Oneshot<T, W> {
    value: Option<T>,
    slot: Option<T>,
    sender_dropped: bool,
    receiver: ReceiverState<W>,
    registered: bool,
}

/// Creates a oneshot channel: no value, a live sender and an idle receiver.
pub fn channel<T, W>() -> (chan: Oneshot<T, W>)
    ensures
        chan.wf(),
        chan.value() is None,
        chan.slot() is None,
        !chan.sender_dropped(),
        chan.receiver() is Alive,
        !chan.registered(),
{
    Oneshot {
        value: None,
        slot: None,
        sender_dropped: false,
        receiver: ReceiverState::Alive,
        registered: false,
    }
}

impl<T, W> Oneshot<T, W> {
    /// The value left in the channel.
    pub closed spec fn value(&self) -> Option<T> {
        self.value
    }

    /// The receiver's slot.
    pub closed spec fn slot(&self) -> Option<T> {
        self.slot
    }

    /// Has the sender gone away?
    pub closed spec fn sender_dropped(&self) -> bool {
        self.sender_dropped
    }

    /// What the receiver is doing.
    pub closed spec fn receiver(&self) -> ReceiverState<W> {
        self.receiver
    }

    /// Has the receiver registered its slot?
    pub closed spec fn registered(&self) -> bool {
        self.registered
    }

    /// A receiver waits only after registering its slot.
    pub open spec fn wf(&self) -> bool {
        self.receiver() is Waiting ==> self.registered()
    }

    /// Can the receiver be polled: is it not done with an empty slot?
    pub fn can_poll(&self) -> (ok: bool)
        ensures
            ok == !(self.registered() && self.receiver() is Dropped && self.slot() is None),
    {
        if self.registered {
            match &self.receiver {
                ReceiverState::Dropped => self.slot.is_some(),
                _ => true,
            }
        } else {
            true
        }
    }

    /// The sender goes away: recorded, and a waiting receiver is woken (its
    /// waker is returned) and marked alive. A receiver that is not waiting
    /// keeps its state, so a value already placed in its slot stays its own.
    pub fn drop_sender(&mut self) -> (wakers: Vec<W>)
        requires
            old(self).wf(),
        ensures
            final(self).wf(),
            final(self).sender_dropped(),
            final(self).receiver() == match old(self).receiver() {
                ReceiverState::Waiting(_) => ReceiverState::Alive,
                other => other,
            },
            final(self).value() == old(self).value(),
            final(self).slot() == old(self).slot(),
            final(self).registered() == old(self).registered(),
            match old(self).receiver() {
                ReceiverState::Waiting(w) => wakers@ == seq![w],
                _ => wakers@.len() == 0,
            },
    {
        self.sender_dropped = true;
        let mut state = ReceiverState::Alive;
        std::mem::swap(&mut state, &mut self.receiver);
        let mut wakers: Vec<W> = Vec::new();
        match state {
            ReceiverState::Waiting(w) => {
                wakers.push(w);
                assert(wakers@ =~= seq![w]);
            },
            other => {
                self.receiver = other;
            },
        }
        wakers
    }

    /// Sends `value`, using the sender up. A waiting receiver gets it in its
    /// slot, is marked done, and its waker is returned; an idle one finds it
    /// in the channel; a dropped one refuses it and it comes back. Then the
    /// sender goes away (see `drop_sender`).
    pub fn send(&mut self, value: T) -> (res: (Result<(), T>, Vec<W>))
        requires
            old(self).wf(),
        ensures
            final(self).wf(),
            final(self).sender_dropped(),
            final(self).registered() == old(self).registered(),
            match old(self).receiver() {
                ReceiverState::Waiting(w) => {
                    &&& res.0 is Ok
                    &&& res.1@ == seq![w]
                    &&& final(self).receiver() is Dropped
                    &&& final(self).registered()
                    &&& final(self).slot() == Some(value)
                    &&& final(self).value() == old(self).value()
                },
                ReceiverState::Alive => {
                    &&& res.0 is Ok
                    &&& res.1@.len() == 0
                    &&& final(self).receiver() is Alive
                    &&& final(self).value() == Some(value)
                    &&& final(self).slot() == old(self).slot()
                },
                ReceiverState::Dropped => {
                    &&& res.0 == Err::<(), T>(value)
                    &&& res.1@.len() == 0
                    &&& final(self).receiver() is Dropped
                    &&& final(self).value() == old(self).value()
                    &&& final(self).slot() == old(self).slot()
                },
            },
    {
        let mut state = ReceiverState::Dropped;
        std::mem::swap(&mut state, &mut self.receiver);
        let mut wakers: Vec<W> = Vec::new();
        let result = match state {
            ReceiverState::Waiting(w) => {
                self.slot = Some(value);
                wakers.push(w);
                assert(wakers@ =~= seq![w]);
                Ok(())
            },
            ReceiverState::Alive => {
                self.value = Some(value);
                self.receiver = ReceiverState::Alive;
                Ok(())
            },
            ReceiverState::Dropped => Err(value),
        };
        let mut more = self.drop_sender();
        wakers.append(&mut more);
        assert(more@.len() == 0);
        (result, wakers)
    }

    /// The receiver goes away. A registered receiver whose slot was filled
    /// drops the value in it.
    pub fn drop_receiver(&mut self)
        requires
            old(self).wf(),
        ensures
            final(self).wf(),
            final(self).receiver() is Dropped,
            final(self).value() == old(self).value(),
            final(self).sender_dropped() == old(self).sender_dropped(),
            final(self).registered() == old(self).registered(),
            final(self).slot() == if old(self).registered() && old(self).receiver() is Dropped {
                None
            } else {
                old(self).slot()
            },
    {
        let mut state = ReceiverState::Dropped;
        std::mem::swap(&mut state, &mut self.receiver);
        if self.registered {
            match state {
                ReceiverState::Dropped => {
                    self.slot = None;
                },
                _ => {},
            }
        }
    }

    /// Polls the receiver with `waker`. A registered receiver marked dropped
    /// takes the value from its slot. Otherwise a value left in the channel
    /// is taken; else a receiver whose sender went away gets `None`; else the
    /// receiver registers its slot and waits.
    pub fn poll_receiver(&mut self, waker: W) -> (r: Poll<Option<T>>)
        requires
            old(self).wf(),
            old(self).registered() && old(self).receiver() is Dropped ==> old(self).slot() is Some,
        ensures
            final(self).wf(),
            final(self).sender_dropped() == old(self).sender_dropped(),
            old(self).registered() && old(self).receiver() is Dropped ==> {
                &&& r == Poll::Ready(old(self).slot())
                &&& !final(self).registered()
                &&& final(self).receiver() is Dropped
                &&& final(self).slot() is None
                &&& final(self).value() == old(self).value()
            },
            !(old(self).registered() && old(self).receiver() is Dropped) ==> {
                &&& final(self).slot() == old(self).slot()
                &&& if old(self).value() is Some {
                    &&& r == Poll::Ready(old(self).value())
                    &&& final(self).value() is None
                    &&& final(self).receiver() is Dropped
                    &&& final(self).registered() == old(self).registered()
                } else if old(self).sender_dropped() {
                    &&& r == Poll::Ready(None::<T>)
                    &&& final(self).value() is None
                    &&& final(self).receiver() is Dropped
                    &&& final(self).registered() == old(self).registered()
                } else {
                    &&& r is Pending
                    &&& final(self).value() is None
                    &&& final(self).receiver() == ReceiverState::Waiting(waker)
                    &&& final(self).registered()
                }
            },
    {
        if self.registered {
            match &self.receiver {
                ReceiverState::Dropped => {
                    self.registered = false;
                    let v = self.slot.take();
                    return Poll::Ready(v);
                },
                _ => {},
            }
        }
        match self.value.take() {
            Some(v) => {
                self.receiver = ReceiverState::Dropped;
                return Poll::Ready(Some(v));
            },
            None => {},
        }
        if self.sender_dropped {
            self.receiver = ReceiverState::Dropped;
            return Poll::Ready(None);
        }
        self.receiver = ReceiverState::Waiting(waker);
        self.registered = true;
        Poll::Pending
    }
}

} // verus!
