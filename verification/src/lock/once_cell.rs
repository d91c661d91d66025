//! A cell that is written once, by whichever task gets to initialize it first.

use crate::event::{after_drop, after_notify, has_key, resumed, Entry, Event, ListenerState, Wait};
use vstd::prelude::*;

verus! {

/// A value that is written once. `active` wakes tasks that wait to take
/// their turn at initializing; `passive` wakes tasks that only wait for the
/// value.
pub struct OnceCell<T, W> {
    active: Event<(), W>,
    passive: Event<(), W>,
    writing: bool,
    data: Option<T>,
}

/// What an initialization in progress does next.
#[derive(Debug, PartialEq, Eq)]
pub enum InitStep {
    /// The cell holds a value: initialization is over.
    Ready,
    /// Another task is initializing: wait.
    Pending,
    /// The caller initializes: run the setter and hand its result to
    /// `finish_init`.
    RunSetter,
}

/// An initialization in progress: its wait for its turn, and whether it is
/// running its setter.
pub struct Init {
    pub wait: Wait,
    pub running: bool,
}

impl<T, W> OnceCell<T, W> {
    /// The value, once written.
    pub closed spec fn value(&self) -> Option<T> {
        self.data
    }

    /// Is a task running its setter?
    pub closed spec fn is_writing(&self) -> bool {
        self.writing
    }

    /// The tasks waiting for their turn to initialize.
    pub closed spec fn init_waiters(&self) -> Seq<Entry<(), W>> {
        self.active.entries()
    }

    /// How many of them are notified.
    pub closed spec fn init_notified(&self) -> nat {
        self.active.notified()
    }

    /// The key the next of them gets.
    pub closed spec fn init_next_key(&self) -> u64 {
        self.active.next_key()
    }

    /// The tasks waiting for the value.
    pub closed spec fn value_waiters(&self) -> Seq<Entry<(), W>> {
        self.passive.entries()
    }

    /// How many of them are notified.
    pub closed spec fn value_notified(&self) -> nat {
        self.passive.notified()
    }

    /// The key the next of them gets.
    pub closed spec fn value_next_key(&self) -> u64 {
        self.passive.next_key()
    }

    /// Both events are well formed.
    pub closed spec fn wf(&self) -> bool {
        &&& self.active.wf()
        &&& self.passive.wf()
    }

    /// Creates an empty cell.
    pub fn new() -> (cell: Self)
        ensures
            cell.wf(),
            cell.value() is None,
            !cell.is_writing(),
            cell.init_waiters().len() == 0,
            cell.value_waiters().len() == 0,
            cell.init_notified() == 0,
            cell.value_notified() == 0,
            cell.init_next_key() == 0,
            cell.value_next_key() == 0,
    {
        OnceCell { active: Event::new(), passive: Event::new(), writing: false, data: None }
    }

    /// Creates a cell that holds `value`.
    pub fn from_value(value: T) -> (cell: Self)
        ensures
            cell.wf(),
            cell.value() == Some(value),
            !cell.is_writing(),
            cell.init_waiters().len() == 0,
            cell.value_waiters().len() == 0,
            cell.init_notified() == 0,
            cell.value_notified() == 0,
            cell.init_next_key() == 0,
            cell.value_next_key() == 0,
    {
        OnceCell { active: Event::new(), passive: Event::new(), writing: false, data: Some(value) }
    }

    /// The value, if written.
    pub fn get(&self) -> (value: Option<&T>)
        ensures
            match value {
                Some(v) => self.value() == Some(*v),
                None => self.value() is None,
            },
    {
        match &self.data {
            Some(v) => Some(v),
            None => None,
        }
    }

    /// The value, for a caller that holds the cell exclusively.
    pub fn get_mut(&mut self) -> (value: Option<&mut T>)
        ensures
            value is Some <==> old(self).value() is Some,
            value matches Some(v) ==> *v == old(self).value()->0,
    {
        match &mut self.data {
            Some(v) => Some(v),
            None => None,
        }
    }

    /// Takes the value out of the cell, leaving it empty.
    pub fn take(&mut self) -> (value: Option<T>)
        requires
            old(self).wf(),
        ensures
            final(self).wf(),
            value == old(self).value(),
            final(self).value() is None,
            final(self).is_writing() == old(self).is_writing(),
            final(self).init_waiters() == old(self).init_waiters(),
            final(self).value_waiters() == old(self).value_waiters(),
            final(self).init_notified() == old(self).init_notified(),
            final(self).value_notified() == old(self).value_notified(),
            final(self).init_next_key() == old(self).init_next_key(),
            final(self).value_next_key() == old(self).value_next_key(),
    {
        self.data.take()
    }

    /// Can another wait start?
    pub fn can_init(&self) -> (ok: bool)
        ensures
            ok == (self.init_next_key() < u64::MAX),
    {
        self.active.can_listen()
    }

    /// Can another wait start?
    pub fn can_wait(&self) -> (ok: bool)
        ensures
            ok == (self.value_next_key() < u64::MAX),
    {
        self.passive.can_listen()
    }

    /// Does the cell hold a value?
    pub fn is_set(&self) -> (set: bool)
        ensures
            set == self.value() is Some,
    {
        self.data.is_some()
    }

    /// Starts getting the value or initializing it.
    pub fn get_or_try_init(&mut self) -> (init: Init)
        requires
            old(self).wf(),
            old(self).init_next_key() < u64::MAX,
        ensures
            final(self).wf(),
            !init.running,
            !init.wait.waiting,
            !has_key(final(self).init_waiters(), init.wait.listener.id),
            init.wait.listener.id < final(self).init_next_key(),
            final(self).init_next_key() == old(self).init_next_key() + 1,
            final(self).value_next_key() == old(self).value_next_key(),
            final(self).value() == old(self).value(),
            final(self).is_writing() == old(self).is_writing(),
            final(self).init_waiters() == old(self).init_waiters(),
            final(self).value_waiters() == old(self).value_waiters(),
            final(self).init_notified() == old(self).init_notified(),
            final(self).value_notified() == old(self).value_notified(),
    {
        let wait = self.active.start_wait();
        Init { wait, running: false }
    }

    /// Polls an initialization that is not running its setter. Once its wait
    /// may go on: a cell with a value is ready; a cell that another task is
    /// writing makes it wait again; otherwise the caller starts writing and
    /// runs its setter.
    pub fn poll_init(&mut self, init: &mut Init, waker: W) -> (step: InitStep)
        requires
            old(self).wf(),
            !old(init).running,
            old(init).wait.listener.id < old(self).init_next_key(),
            old(init).wait.waiting || !has_key(old(self).init_waiters(), old(init).wait.listener.id),
        ensures
            final(self).wf(),
            final(self).value() == old(self).value(),
            final(self).value_waiters() == old(self).value_waiters(),
            final(self).value_notified() == old(self).value_notified(),
            final(self).init_next_key() == old(self).init_next_key(),
            final(self).value_next_key() == old(self).value_next_key(),
            final(init).wait.listener == old(init).wait.listener,
            final(init).running == (step == InitStep::RunSetter),
            final(init).wait.waiting || !has_key(final(self).init_waiters(), final(init).wait.listener.id),
            ({
                let (go, after, n) = resumed(
                    old(self).init_waiters(),
                    old(self).init_notified(),
                    old(init).wait.listener.id,
                    old(init).wait.waiting,
                    waker,
                );
                &&& final(self).init_notified() == n
                &&& if !go {
                    &&& step == InitStep::Pending
                    &&& final(init).wait.waiting
                    &&& final(self).is_writing() == old(self).is_writing()
                    &&& final(self).init_waiters() == after
                } else if old(self).value() is Some {
                    &&& step == InitStep::Ready
                    &&& !final(init).wait.waiting
                    &&& final(self).is_writing() == old(self).is_writing()
                    &&& final(self).init_waiters() == after
                } else if old(self).is_writing() {
                    &&& step == InitStep::Pending
                    &&& final(init).wait.waiting
                    &&& final(self).is_writing()
                    &&& final(self).init_waiters() == after.push(
                        Entry {
                            id: old(init).wait.listener.id,
                            state: ListenerState::Waiting(waker),
                        },
                    )
                } else {
                    &&& step == InitStep::RunSetter
                    &&& !final(init).wait.waiting
                    &&& final(self).is_writing()
                    &&& final(self).init_waiters() == after
                }
            }),
    {
        match self.active.resume(&mut init.wait, waker) {
            None => InitStep::Pending,
            Some(w) => {
                if self.data.is_some() {
                    InitStep::Ready
                } else if self.writing {
                    self.active.suspend(&mut init.wait, w);
                    InitStep::Pending
                } else {
                    self.writing = true;
                    init.running = true;
                    InitStep::RunSetter
                }
            },
        }
    }

    /// The setter of a running initialization finished with `result`. On
    /// success the value is stored and every waiter of both kinds is
    /// notified (as additional notifications); either way the writing flag
    /// drops and one more waiter for the turn is notified. Returns the
    /// setter's error, if any, and the wakers to wake.
    pub fn finish_init<E>(&mut self, init: Init, result: Result<T, E>) -> (res: (
        Result<(), E>,
        Vec<W>,
    ))
        requires
            old(self).wf(),
            init.running,
        ensures
            final(self).wf(),
            !final(self).is_writing(),
            final(self).init_next_key() == old(self).init_next_key(),
            final(self).value_next_key() == old(self).value_next_key(),
            match result {
                Ok(v) => {
                    let (pe, pn, pw) = after_notify(
                        old(self).value_waiters(),
                        old(self).value_notified(),
                        usize::MAX as nat,
                        true,
                        (),
                    );
                    let (ae, an, aw) = after_notify(
                        old(self).init_waiters(),
                        old(self).init_notified(),
                        usize::MAX as nat,
                        true,
                        (),
                    );
                    let (ae2, an2, aw2) = after_notify(ae, an, 1, false, ());
                    &&& res.0 is Ok
                    &&& final(self).value() == Some(v)
                    &&& final(self).value_waiters() == pe
                    &&& final(self).value_notified() == pn
                    &&& final(self).init_waiters() == ae2
                    &&& final(self).init_notified() == an2
                    &&& res.1@ == pw + aw + aw2
                },
                Err(e) => {
                    let (ae, an, aw) = after_notify(
                        old(self).init_waiters(),
                        old(self).init_notified(),
                        1,
                        false,
                        (),
                    );
                    &&& res.0 == Err::<(), E>(e)
                    &&& final(self).value() == old(self).value()
                    &&& final(self).value_waiters() == old(self).value_waiters()
                    &&& final(self).value_notified() == old(self).value_notified()
                    &&& final(self).init_waiters() == ae
                    &&& final(self).init_notified() == an
                    &&& res.1@ == aw
                },
            },
    {
        match result {
            Ok(v) => {
                self.data = Some(v);
                let (_, mut wakers) = self.passive.notify_tag(usize::MAX, true, ());
                let (_, mut more) = self.active.notify_tag(usize::MAX, true, ());
                wakers.append(&mut more);
                self.writing = false;
                let (_, mut last) = self.active.notify_tag(1, false, ());
                wakers.append(&mut last);
                (Ok(()), wakers)
            },
            Err(e) => {
                self.writing = false;
                let (_, wakers) = self.active.notify_tag(1, false, ());
                (Err(e), wakers)
            },
        }
    }

    /// An initialization is dropped. One that was running its setter drops
    /// the writing flag and notifies one waiter for the turn; its listener
    /// then leaves, passing on a notification it had not taken.
    pub fn drop_init(&mut self, init: Init) -> (wakers: Vec<W>)
        requires
            old(self).wf(),
        ensures
            final(self).wf(),
            final(self).value() == old(self).value(),
            final(self).value_waiters() == old(self).value_waiters(),
            final(self).value_notified() == old(self).value_notified(),
            final(self).init_next_key() == old(self).init_next_key(),
            final(self).value_next_key() == old(self).value_next_key(),
            init.running ==> !final(self).is_writing(),
            !init.running ==> final(self).is_writing() == old(self).is_writing(),
            ({
                let (e1, n1, w1) = if init.running {
                    after_notify(old(self).init_waiters(), old(self).init_notified(), 1, false, ())
                } else {
                    (old(self).init_waiters(), old(self).init_notified(), Seq::<W>::empty())
                };
                let (e2, n2, w2) = after_drop(e1, n1, init.wait.listener.id);
                &&& final(self).init_waiters() == e2
                &&& final(self).init_notified() == n2
                &&& wakers@ == w1 + w2
            }),
    {
        let mut wakers: Vec<W> = Vec::new();
        if init.running {
            self.writing = false;
            let (_, w) = self.active.notify_tag(1, false, ());
            wakers = w;
        }
        let mut more = self.active.drop_listener(init.wait.listener);
        wakers.append(&mut more);
        wakers
    }

    /// Starts waiting for the cell to hold a value.
    pub fn wait(&mut self) -> (wait: Wait)
        requires
            old(self).wf(),
            old(self).value_next_key() < u64::MAX,
        ensures
            final(self).wf(),
            !wait.waiting,
            !has_key(final(self).value_waiters(), wait.listener.id),
            wait.listener.id < final(self).value_next_key(),
            final(self).value_next_key() == old(self).value_next_key() + 1,
            final(self).init_next_key() == old(self).init_next_key(),
            final(self).value() == old(self).value(),
            final(self).is_writing() == old(self).is_writing(),
            final(self).init_waiters() == old(self).init_waiters(),
            final(self).value_waiters() == old(self).value_waiters(),
            final(self).init_notified() == old(self).init_notified(),
            final(self).value_notified() == old(self).value_notified(),
    {
        self.passive.start_wait()
    }

    /// Polls a wait for the value: once the wait may go on, it is over if the
    /// cell holds a value, and waits again otherwise.
    pub fn poll_wait(&mut self, wait: &mut Wait, waker: W) -> (ready: bool)
        requires
            old(self).wf(),
            old(wait).listener.id < old(self).value_next_key(),
            old(wait).waiting || !has_key(old(self).value_waiters(), old(wait).listener.id),
        ensures
            final(self).wf(),
            final(self).value() == old(self).value(),
            final(self).is_writing() == old(self).is_writing(),
            final(self).init_waiters() == old(self).init_waiters(),
            final(self).init_notified() == old(self).init_notified(),
            final(self).init_next_key() == old(self).init_next_key(),
            final(self).value_next_key() == old(self).value_next_key(),
            final(wait).listener == old(wait).listener,
            final(wait).waiting || !has_key(final(self).value_waiters(), final(wait).listener.id),
            ({
                let (go, after, n) = resumed(
                    old(self).value_waiters(),
                    old(self).value_notified(),
                    old(wait).listener.id,
                    old(wait).waiting,
                    waker,
                );
                &&& final(self).value_notified() == n
                &&& ready == (go && old(self).value() is Some)
                &&& final(wait).waiting == !ready
                &&& if go && old(self).value() is None {
                    final(self).value_waiters() == after.push(
                        Entry { id: old(wait).listener.id, state: ListenerState::Waiting(waker) },
                    )
                } else {
                    final(self).value_waiters() == after
                }
            }),
    {
        match self.passive.resume(wait, waker) {
            None => false,
            Some(w) => {
                if self.data.is_some() {
                    true
                } else {
                    self.passive.suspend(wait, w);
                    false
                }
            },
        }
    }

    /// A wait for the value is dropped: its listener leaves, passing on a
    /// notification it had not taken.
    pub fn drop_wait(&mut self, wait: Wait) -> (wakers: Vec<W>)
        requires
            old(self).wf(),
        ensures
            final(self).wf(),
            final(self).value() == old(self).value(),
            final(self).is_writing() == old(self).is_writing(),
            final(self).init_waiters() == old(self).init_waiters(),
            final(self).init_notified() == old(self).init_notified(),
            final(self).init_next_key() == old(self).init_next_key(),
            final(self).value_next_key() == old(self).value_next_key(),
            (final(self).value_waiters(), final(self).value_notified(), wakers@) == after_drop(
                old(self).value_waiters(),
                old(self).value_notified(),
                wait.listener.id,
            ),
    {
        self.passive.drop_listener(wait.listener)
    }
}

} // verus!
