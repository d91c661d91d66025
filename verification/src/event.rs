//! Events: a list of listeners in the order they registered, the first of
//! which are notified.
//!
//! A listener joins the list the first time it is polled. A notification
//! reaches listeners that are not yet notified, oldest first, and hands each
//! a tag. A plain notification of `n` tops the number of notified listeners up
//! to `n`; an additional one notifies `n` more. A notified listener that is
//! dropped before it took its tag hands the notification on to the next one.

use vstd::prelude::*;

verus! {

/// The outcome of polling a listener.
#[derive(Debug, PartialEq, Eq)]
pub enum Poll<T> {
    /// The listener was notified with this tag.
    Ready(T),
    /// The listener waits.
    Pending,
}

/// What a registered listener is doing.
pub enum ListenerState<T, W> {
    /// Registered, with no waker yet.
    Created,
    /// Waiting; the waker is handed out when the listener is notified.
    Waiting(W),
    /// Notified with a tag; the flag tells whether the notification was an
    /// additional one.
    Notified(T, bool),
}

/// A registered listener: its key and its state.
pub struct Entry<T, W> {
    pub id: u64,
    pub state: ListenerState<T, W>,
}

/// A listener of an event, known to the event by its key.
pub struct EventListener {
    pub id: u64,
}

/// Is some entry of `entries` registered under `id`?
pub open spec fn has_key<T, W>(entries: Seq<Entry<T, W>>, id: u64) -> bool {
    exists|i: int| 0 <= i < entries.len() && #[trigger] entries[i].id == id
}

/// The position of the entry registered under `id`.
pub open spec fn key_index<T, W>(entries: Seq<Entry<T, W>>, id: u64) -> int {
    choose|i: int| 0 <= i < entries.len() && #[trigger] entries[i].id == id
}

/// How many listeners a notification of `count` reaches, in a list of `len`
/// listeners of which the first `notified` are notified already.
pub open spec fn reach(len: nat, notified: nat, count: nat, additional: bool) -> nat {
    let wanted: nat = if additional {
        count
    } else if count <= notified {
        0
    } else {
        (count - notified) as nat
    };
    let free: nat = if notified <= len { (len - notified) as nat } else { 0 };
    if wanted <= free { wanted } else { free }
}

/// `entries` after the listeners from position `from` on took the `tags`, in order.
pub open spec fn notify_entries<T, W>(
    entries: Seq<Entry<T, W>>,
    from: int,
    tags: Seq<T>,
    additional: bool,
) -> Seq<Entry<T, W>> {
    Seq::new(
        entries.len(),
        |i: int|
            if from <= i < from + tags.len() {
                Entry { id: entries[i].id, state: ListenerState::Notified(tags[i - from], additional) }
            } else {
                entries[i]
            },
    )
}

/// The wakers of the waiting listeners among `entries`, in order.
pub open spec fn wakers_of<T, W>(entries: Seq<Entry<T, W>>) -> Seq<W>
    decreases entries.len(),
{
    if entries.len() == 0 {
        Seq::empty()
    } else {
        let rest = wakers_of(entries.drop_last());
        match entries.last().state {
            ListenerState::Waiting(w) => rest.push(w),
            _ => rest,
        }
    }
}

/// Polling the listener `id` with `waker`, in a list whose first `notified`
/// entries are notified: the outcome, the list after, and how many are
/// notified after. A listener that is not registered joins the end and
/// waits; a notified one leaves and takes its tag; any other waits with the
/// new waker.
pub open spec fn after_poll<T, W>(entries: Seq<Entry<T, W>>, notified: nat, id: u64, waker: W) -> (
    Poll<T>,
    Seq<Entry<T, W>>,
    nat,
) {
    if !has_key(entries, id) {
        (Poll::Pending, entries.push(Entry { id, state: ListenerState::Waiting(waker) }), notified)
    } else {
        let p = key_index(entries, id);
        match entries[p].state {
            ListenerState::Notified(tag, _) => (
                Poll::Ready(tag),
                entries.remove(p),
                (notified - 1) as nat,
            ),
            _ => (
                Poll::Pending,
                entries.update(p, Entry { id, state: ListenerState::Waiting(waker) }),
                notified,
            ),
        }
    }
}

/// Dropping the listener `id`: the list after, how many are notified after,
/// and the wakers to wake. A notified listener that leaves hands its tag on
/// as a notification of one, plain or additional as its own was.
pub open spec fn after_drop<T, W>(entries: Seq<Entry<T, W>>, notified: nat, id: u64) -> (
    Seq<Entry<T, W>>,
    nat,
    Seq<W>,
) {
    if !has_key(entries, id) {
        (entries, notified, Seq::empty())
    } else {
        let p = key_index(entries, id);
        let rest = entries.remove(p);
        match entries[p].state {
            ListenerState::Notified(tag, additional) => {
                let n1 = (notified - 1) as nat;
                let k = min_nat(reach(rest.len(), n1, 1, additional), 1);
                (
                    notify_entries(rest, n1 as int, seq![tag].take(k as int), additional),
                    n1 + k,
                    wakers_of(rest.subrange(n1 as int, (n1 + k) as int)),
                )
            },
            _ => (rest, notified, Seq::empty()),
        }
    }
}

/// Resuming a wait on listener `id`: whether to try the awaited condition,
/// the list after, and how many are notified after. A wait that is not
/// waiting tries at once; a waiting one polls its listener and tries only
/// when it was notified.
pub open spec fn resumed<T, W>(
    entries: Seq<Entry<T, W>>,
    notified: nat,
    id: u64,
    waiting: bool,
    waker: W,
) -> (bool, Seq<Entry<T, W>>, nat) {
    if !waiting {
        (true, entries, notified)
    } else {
        let (r, after, n) = after_poll(entries, notified, id, waker);
        (r is Ready, after, n)
    }
}

/// Notifying with a copy of `tag` for each listener reached: the list
/// after, how many are notified after, and the wakers to wake.
pub open spec fn after_notify<T, W>(
    entries: Seq<Entry<T, W>>,
    notified: nat,
    count: nat,
    additional: bool,
    tag: T,
) -> (Seq<Entry<T, W>>, nat, Seq<W>) {
    let k = reach(entries.len(), notified, count, additional);
    (
        notify_entries(entries, notified as int, Seq::new(k, |i: int| tag), additional),
        notified + k,
        wakers_of(entries.subrange(notified as int, (notified + k) as int)),
    )
}

/// The smaller of two numbers.
pub open spec fn min_nat(a: nat, b: nat) -> nat {
    if a <= b { a } else { b }
}

/// A wait on an event: "until the condition holds, wait for a notification".
/// The listener is registered only while `waiting`.
pub struct Wait {
    pub listener: EventListener,
    pub waiting: bool,
}

/// An event that listeners wait on.
pub struct Event<T, W> {
    entries: Vec<Entry<T, W>>,
    notified: usize,
    next_id: u64,
}

impl<T, W> Event<T, W> {
    /// The registered listeners, oldest first.
    pub closed spec fn entries(&self) -> Seq<Entry<T, W>> {
        self.entries@
    }

    /// How many listeners are notified: always the first ones.
    pub closed spec fn notified(&self) -> nat {
        self.notified as nat
    }

    /// The key the next listener gets.
    pub closed spec fn next_key(&self) -> u64 {
        self.next_id
    }

    /// The notified listeners are exactly the first `notified()`, keys are
    /// distinct, and all lie below `next_key()`.
    pub open spec fn wf(&self) -> bool {
        &&& self.notified() <= self.entries().len()
        &&& forall|i: int|
            0 <= i < self.entries().len() ==> ((#[trigger] self.entries()[i]).state is Notified
                <==> i < self.notified())
        &&& forall|i: int, j: int|
            0 <= i < j < self.entries().len() ==> #[trigger] self.entries()[i].id
                != #[trigger] self.entries()[j].id
        &&& forall|i: int|
            0 <= i < self.entries().len() ==> (#[trigger] self.entries()[i]).id < self.next_key()
    }

    /// Creates an event with no listeners.
    pub fn new() -> (event: Self)
        ensures
            event.wf(),
            event.entries() == Seq::<Entry<T, W>>::empty(),
            event.notified() == 0,
            event.next_key() == 0,
    {
        Event { entries: Vec::new(), notified: 0, next_id: 0 }
    }

    /// The number of registered listeners.
    pub fn len(&self) -> (len: usize)
        ensures
            len == self.entries().len(),
    {
        self.entries.len()
    }

    /// The number of notified listeners.
    pub fn notified_count(&self) -> (count: usize)
        ensures
            count == self.notified(),
    {
        self.notified
    }

    /// Can another listener be created?
    pub fn can_listen(&self) -> (ok: bool)
        ensures
            ok == (self.next_key() < u64::MAX),
    {
        self.next_id < u64::MAX
    }

    /// Creates a listener for this event. It joins the list when first polled.
    pub fn listen(&mut self) -> (listener: EventListener)
        requires
            old(self).wf(),
            old(self).next_key() < u64::MAX,
        ensures
            final(self).wf(),
            listener.id == old(self).next_key(),
            final(self).next_key() == old(self).next_key() + 1,
            final(self).entries() == old(self).entries(),
            final(self).notified() == old(self).notified(),
    {
        let id = self.next_id;
        self.next_id = self.next_id + 1;
        EventListener { id }
    }

    /// The position of the listener registered under `id`, if any.
    pub fn find(&self, id: u64) -> (pos: Option<usize>)
        requires
            self.wf(),
        ensures
            match pos {
                Some(p) => p < self.entries().len() && self.entries()[p as int].id == id && p
                    == key_index(self.entries(), id),
                None => !has_key(self.entries(), id),
            },
            pos is Some <==> has_key(self.entries(), id),
    {
        let mut i: usize = 0;
        while i < self.entries.len()
            invariant
                self.wf(),
                i <= self.entries@.len(),
                forall|j: int| 0 <= j < i ==> self.entries@[j].id != id,
            decreases self.entries@.len() - i,
        {
            if self.entries[i].id == id {
                proof {
                    let k = key_index(self.entries(), id);
                    assert(self.entries()[i as int].id == id);
                    if k != i as int {
                        if k < i as int {
                            assert(self.entries()[k].id != self.entries()[i as int].id);
                        } else {
                            assert(self.entries()[i as int].id != self.entries()[k].id);
                        }
                    }
                }
                return Some(i);
            }
            i = i + 1;
        }
        None
    }

    /// How many listeners a notification of `count` would reach now.
    pub fn reach(&self, count: usize, additional: bool) -> (n: usize)
        requires
            self.wf(),
        ensures
            n == reach(self.entries().len(), self.notified(), count as nat, additional),
    {
        let wanted: usize = if additional {
            count
        } else if count <= self.notified {
            0
        } else {
            count - self.notified
        };
        let free: usize = self.entries.len() - self.notified;
        if wanted <= free {
            wanted
        } else {
            free
        }
    }

    /// Notifies listeners that are not yet notified, oldest first, handing
    /// each the next of `tags`. A plain notification tops the notified
    /// listeners up to `count`; an additional one notifies `count` more. Stops
    /// early when the tags run out. Returns how many listeners were notified,
    /// the wakers of those that were waiting (to be woken, in order), and the
    /// tags left over.
    pub fn notify(&mut self, count: usize, additional: bool, tags: Vec<T>) -> (res: (
        usize,
        Vec<W>,
        Vec<T>,
    ))
        requires
            old(self).wf(),
        ensures
            final(self).wf(),
            res.0 == min_nat(
                reach(old(self).entries().len(), old(self).notified(), count as nat, additional),
                tags@.len(),
            ),
            final(self).entries() == notify_entries(
                old(self).entries(),
                old(self).notified() as int,
                tags@.take(res.0 as int),
                additional,
            ),
            final(self).notified() == old(self).notified() + res.0,
            final(self).next_key() == old(self).next_key(),
            res.1@ == wakers_of(
                old(self).entries().subrange(
                    old(self).notified() as int,
                    old(self).notified() + res.0,
                ),
            ),
            res.2@ == tags@.skip(res.0 as int),
    {
        let n0: usize = self.notified;
        let ghost old_entries = self.entries@;
        let ghost tags0 = tags@;
        let mut remaining: usize = self.reach(count, additional);
        assert(n0 + remaining <= old_entries.len());
        let mut k: usize = 0;
        let mut tags = tags;
        let mut wakers: Vec<W> = Vec::new();
        while remaining > 0 && tags.len() > 0
            invariant
                old_entries.len() == self.entries@.len(),
                n0 <= old_entries.len(),
                forall|i: int|
                    0 <= i < old_entries.len() ==> ((#[trigger] old_entries[i]).state is Notified
                        <==> i < n0),
                forall|i: int, j: int|
                    0 <= i < j < old_entries.len() ==> #[trigger] old_entries[i].id
                        != #[trigger] old_entries[j].id,
                forall|i: int|
                    0 <= i < old_entries.len() ==> (#[trigger] old_entries[i]).id < self.next_id,
                self.notified == n0 + k,
                self.next_id == old(self).next_id,
                n0 + k + remaining <= old_entries.len(),
                k + remaining == reach(old_entries.len(), n0 as nat, count as nat, additional),
                k <= tags0.len(),
                tags@ == tags0.skip(k as int),
                self.entries@ == notify_entries(
                    old_entries,
                    n0 as int,
                    tags0.take(k as int),
                    additional,
                ),
                wakers@ == wakers_of(old_entries.subrange(n0 as int, n0 + k)),
            decreases remaining,
        {
            let tag = tags.remove(0);
            let idx = self.notified;
            let len = self.entries.len();
            assert(idx < len);
            let mut entry = Entry { id: 0, state: ListenerState::Created };
            std::mem::swap(&mut entry, &mut self.entries[idx]);
            let id = entry.id;
            self.entries.set(idx, Entry { id, state: ListenerState::Notified(tag, additional) });
            proof {
                assert(entry == old_entries[idx as int]);
                let s = old_entries.subrange(n0 as int, n0 + k + 1);
                assert(s.drop_last() =~= old_entries.subrange(n0 as int, n0 + k));
                assert(s.last() == old_entries[idx as int]);
            }
            match entry.state {
                ListenerState::Waiting(w) => {
                    wakers.push(w);
                },
                _ => {},
            }
            self.notified = self.notified + 1;
            k = k + 1;
            remaining = remaining - 1;
            proof {
                assert(tags@ =~= tags0.skip(k as int));
                assert(self.entries@ =~= notify_entries(
                    old_entries,
                    n0 as int,
                    tags0.take(k as int),
                    additional,
                ));
            }
        }
        (k, wakers, tags)
    }

    /// Polls `listener`, giving it `waker` to be woken by. A listener that is
    /// not registered joins the end of the list and waits. A notified one
    /// leaves the list and takes its tag. Any other registered one waits with
    /// the new waker. The waker comes back when the listener does not keep it.
    pub fn poll(&mut self, listener: &EventListener, waker: W) -> (res: (Poll<T>, Option<W>))
        requires
            old(self).wf(),
            listener.id < old(self).next_key(),
        ensures
            final(self).wf(),
            final(self).next_key() == old(self).next_key(),
            res.1 == (if res.0 is Ready { Some(waker) } else { None::<W> }),
            (res.0, final(self).entries(), final(self).notified()) == after_poll(
                old(self).entries(),
                old(self).notified(),
                listener.id,
                waker,
            ),
    {
        let id = listener.id;
        match self.find(id) {
            None => {
                self.entries.push(Entry { id, state: ListenerState::Waiting(waker) });
                proof {
                    assert forall|i: int, j: int|
                        0 <= i < j < self.entries@.len() implies #[trigger] self.entries@[i].id
                        != #[trigger] self.entries@[j].id by {
                        if j == self.entries@.len() - 1 {
                            assert(old(self).entries@[i].id == self.entries@[i].id);
                        }
                    }
                }
                (Poll::Pending, None)
            },
            Some(p) => {
                let mut entry = Entry { id: 0, state: ListenerState::Created };
                std::mem::swap(&mut entry, &mut self.entries[p]);
                match entry.state {
                    ListenerState::Notified(tag, _) => {
                        self.entries.remove(p);
                        self.notified = self.notified - 1;
                        proof {
                            assert(self.entries@ =~= old(self).entries@.remove(p as int));
                            assert forall|i: int, j: int|
                                0 <= i < j < self.entries@.len() implies #[trigger] self.entries@[i].id
                                != #[trigger] self.entries@[j].id by {
                                let oi = if i < p { i } else { i + 1 };
                                let oj = if j < p { j } else { j + 1 };
                                assert(old(self).entries@[oi].id != old(self).entries@[oj].id);
                            }
                            assert forall|i: int|
                                0 <= i < self.entries@.len() implies ((#[trigger] self.entries@[i]).state is Notified
                                <==> i < self.notified) by {
                                let oi = if i < p { i } else { i + 1 };
                                assert(old(self).entries@[oi] == self.entries@[i]);
                            }
                            assert forall|i: int|
                                0 <= i < self.entries@.len() implies (#[trigger] self.entries@[i]).id < self.next_id by {
                                let oi = if i < p { i } else { i + 1 };
                                assert(old(self).entries@[oi] == self.entries@[i]);
                            }
                        }
                        (Poll::Ready(tag), Some(waker))
                    },
                    _ => {
                        self.entries.set(p, Entry { id, state: ListenerState::Waiting(waker) });
                        proof {
                            assert forall|i: int, j: int|
                                0 <= i < j < self.entries@.len() implies #[trigger] self.entries@[i].id
                                != #[trigger] self.entries@[j].id by {
                                assert(old(self).entries@[i].id == self.entries@[i].id);
                                assert(old(self).entries@[j].id == self.entries@[j].id);
                            }
                        }
                        (Poll::Pending, None)
                    },
                }
            },
        }
    }

    /// Drops `listener`. A registered one leaves the list; if it was notified
    /// its notification, with its tag, passes to the next listener that is not
    /// yet notified, and the waker of that listener, if it waits, is returned.
    pub fn drop_listener(&mut self, listener: EventListener) -> (wakers: Vec<W>)
        requires
            old(self).wf(),
        ensures
            final(self).wf(),
            final(self).next_key() == old(self).next_key(),
            (final(self).entries(), final(self).notified(), wakers@) == after_drop(
                old(self).entries(),
                old(self).notified(),
                listener.id,
            ),
    {
        let id = listener.id;
        match self.find(id) {
            None => Vec::new(),
            Some(p) => {
                let entry = self.entries.remove(p);
                let ghost rest = self.entries@;
                proof {
                    assert(rest =~= old(self).entries@.remove(p as int));
                    assert forall|i: int, j: int|
                        0 <= i < j < rest.len() implies #[trigger] rest[i].id
                        != #[trigger] rest[j].id by {
                        let oi = if i < p { i } else { i + 1 };
                        let oj = if j < p { j } else { j + 1 };
                        assert(old(self).entries@[oi].id != old(self).entries@[oj].id);
                    }
                    assert forall|i: int|
                        0 <= i < rest.len() implies (#[trigger] rest[i]).id < self.next_id by {
                        let oi = if i < p { i } else { i + 1 };
                        assert(old(self).entries@[oi] == rest[i]);
                    }
                }
                match entry.state {
                    ListenerState::Notified(tag, additional) => {
                        self.notified = self.notified - 1;
                        proof {
                            assert forall|i: int|
                                0 <= i < rest.len() implies ((#[trigger] rest[i]).state is Notified
                                <==> i < self.notified) by {
                                let oi = if i < p { i } else { i + 1 };
                                assert(old(self).entries@[oi] == rest[i]);
                            }
                        }
                        let mut tags: Vec<T> = Vec::new();
                        tags.push(tag);
                        assert(tags@ =~= seq![tag]);
                        let (_, wakers, _) = self.notify(1, additional, tags);
                        wakers
                    },
                    _ => {
                        proof {
                            assert forall|i: int|
                                0 <= i < rest.len() implies ((#[trigger] rest[i]).state is Notified
                                <==> i < self.notified) by {
                                let oi = if i < p { i } else { i + 1 };
                                assert(old(self).entries@[oi] == rest[i]);
                            }
                        }
                        Vec::new()
                    },
                }
            },
        }
    }

    /// Starts a wait with a new listener, not yet registered.
    pub fn start_wait(&mut self) -> (wait: Wait)
        requires
            old(self).wf(),
            old(self).next_key() < u64::MAX,
        ensures
            final(self).wf(),
            wait.listener.id == old(self).next_key(),
            !wait.waiting,
            !has_key(final(self).entries(), wait.listener.id),
            wait.listener.id < final(self).next_key(),
            final(self).next_key() == old(self).next_key() + 1,
            final(self).entries() == old(self).entries(),
            final(self).notified() == old(self).notified(),
    {
        let listener = self.listen();
        proof {
            if has_key(self.entries(), listener.id) {
                let i = key_index(self.entries(), listener.id);
                assert(self.entries()[i].id < old(self).next_key());
            }
        }
        Wait { listener, waiting: false }
    }

    /// Resumes `wait`. Returns the waker when the condition is to be tried
    /// (the wait was not waiting, or its listener was notified and left the
    /// list, its tag dropped); otherwise the wait keeps waiting with `waker`.
    pub fn resume(&mut self, wait: &mut Wait, waker: W) -> (res: Option<W>)
        requires
            old(self).wf(),
            old(wait).listener.id < old(self).next_key(),
            old(wait).waiting || !has_key(old(self).entries(), old(wait).listener.id),
        ensures
            final(self).wf(),
            final(self).next_key() == old(self).next_key(),
            final(wait).listener == old(wait).listener,
            ({
                let (go, after, n) = resumed(
                    old(self).entries(),
                    old(self).notified(),
                    old(wait).listener.id,
                    old(wait).waiting,
                    waker,
                );
                &&& res == (if go { Some(waker) } else { None::<W> })
                &&& final(wait).waiting == !go
                &&& final(self).entries() == after
                &&& final(self).notified() == n
            }),
            final(wait).waiting || !has_key(final(self).entries(), final(wait).listener.id),
    {
        if !wait.waiting {
            return Some(waker);
        }
        let ghost before = self.entries();
        let (p, back) = self.poll(&wait.listener, waker);
        match p {
            Poll::Pending => None,
            Poll::Ready(_) => {
                proof {
                    removed_key_is_gone(before, key_index(before, wait.listener.id));
                }
                wait.waiting = false;
                back
            },
        }
    }

    /// Makes `wait`, whose listener is not registered, wait: the listener
    /// joins the end of the list with `waker`.
    pub fn suspend(&mut self, wait: &mut Wait, waker: W)
        requires
            old(self).wf(),
            old(wait).listener.id < old(self).next_key(),
            !has_key(old(self).entries(), old(wait).listener.id),
        ensures
            final(self).wf(),
            final(self).next_key() == old(self).next_key(),
            final(wait).listener == old(wait).listener,
            final(wait).waiting,
            final(self).entries() == old(self).entries().push(
                Entry { id: old(wait).listener.id, state: ListenerState::Waiting(waker) },
            ),
            final(self).notified() == old(self).notified(),
    {
        wait.waiting = true;
        let _ = self.poll(&wait.listener, waker);
    }
}

impl<T: Copy, W> Event<T, W> {
    /// Notifies as [`Event::notify`] does, handing every notified listener a
    /// copy of `tag`. Returns how many listeners were notified and the wakers
    /// of those that were waiting.
    pub fn notify_tag(&mut self, count: usize, additional: bool, tag: T) -> (res: (usize, Vec<W>))
        requires
            old(self).wf(),
        ensures
            final(self).wf(),
            res.0 == reach(old(self).entries().len(), old(self).notified(), count as nat, additional),
            final(self).entries() == notify_entries(
                old(self).entries(),
                old(self).notified() as int,
                Seq::new(res.0 as nat, |i: int| tag),
                additional,
            ),
            final(self).notified() == old(self).notified() + res.0,
            final(self).next_key() == old(self).next_key(),
            res.1@ == wakers_of(
                old(self).entries().subrange(
                    old(self).notified() as int,
                    old(self).notified() + res.0,
                ),
            ),
            (final(self).entries(), final(self).notified(), res.1@) == after_notify(
                old(self).entries(),
                old(self).notified(),
                count as nat,
                additional,
                tag,
            ),
    {
        let k = self.reach(count, additional);
        let mut tags: Vec<T> = Vec::new();
        let mut i: usize = 0;
        while i < k
            invariant
                i <= k,
                tags@ == Seq::new(i as nat, |j: int| tag),
            decreases k - i,
        {
            tags.push(tag);
            i = i + 1;
            assert(tags@ =~= Seq::new(i as nat, |j: int| tag));
        }
        let (n, wakers, _) = self.notify(count, additional, tags);
        assert(tags@.take(n as int) =~= tags@);
        (n, wakers)
    }
}

/// The wakers of `entries` are exactly those of its waiting listeners.
pub proof fn wakers_are_the_waiting_ones<T, W>(entries: Seq<Entry<T, W>>)
    ensures
        forall|i: int|
            0 <= i < entries.len() && (#[trigger] entries[i]).state is Waiting ==> wakers_of(
                entries,
            ).contains(entries[i].state->Waiting_0),
        forall|x: W|
            #[trigger] wakers_of(entries).contains(x) ==> exists|i: int|
                0 <= i < entries.len() && (#[trigger] entries[i]).state == ListenerState::<
                    T,
                    W,
                >::Waiting(x),
    decreases entries.len(),
{
    if entries.len() > 0 {
        let init = entries.drop_last();
        wakers_are_the_waiting_ones(init);
        let rest = wakers_of(init);
        let all = wakers_of(entries);
        assert(all == match entries.last().state {
            ListenerState::Waiting(x) => rest.push(x),
            _ => rest,
        });
        assert forall|i: int|
            0 <= i < entries.len() && (#[trigger] entries[i]).state is Waiting implies all.contains(
                entries[i].state->Waiting_0,
            ) by {
            let x = entries[i].state->Waiting_0;
            if i < entries.len() - 1 {
                assert(init[i] == entries[i]);
                assert(rest.contains(x));
                let j = choose|j: int| 0 <= j < rest.len() && rest[j] == x;
                assert(all[j] == x);
            } else {
                assert(all[rest.len() as int] == x);
            }
        }
        assert forall|x: W| #[trigger] all.contains(x) implies exists|i: int|
            0 <= i < entries.len() && (#[trigger] entries[i]).state == ListenerState::<T, W>::Waiting(
                x,
            ) by {
            let j = choose|j: int| 0 <= j < all.len() && all[j] == x;
            if j < rest.len() {
                assert(all[j] == rest[j]);
                assert(rest.contains(x));
                let i = choose|i: int|
                    0 <= i < init.len() && (#[trigger] init[i]).state == ListenerState::<
                        T,
                        W,
                    >::Waiting(x);
                assert(entries[i] == init[i]);
            } else {
                assert(entries[entries.len() - 1].state == ListenerState::<T, W>::Waiting(x));
            }
        }
    }
}

/// `entries` without the entry registered under `id`, if there is one.
pub open spec fn without_key<T, W>(entries: Seq<Entry<T, W>>, id: u64) -> Seq<Entry<T, W>> {
    if has_key(entries, id) {
        entries.remove(key_index(entries, id))
    } else {
        entries
    }
}

/// Dropping a listener passes a notification it had not taken on to the
/// first listener not yet notified, when it was an additional one or the
/// only one; and exactly the waiting listeners that the passed-on
/// notification reaches are woken, never more than one.
pub proof fn dropped_notification_wakes_whom_it_reaches<T, W>(
    entries: Seq<Entry<T, W>>,
    notified: nat,
    id: u64,
)
    requires
        notified <= entries.len(),
        forall|i: int|
            0 <= i < entries.len() ==> ((#[trigger] entries[i]).state is Notified <==> i < notified),
    ensures
        after_drop(entries, notified, id).0.len() == without_key(entries, id).len(),
        forall|i: int|
            0 <= i < without_key(entries, id).len() ==> (#[trigger] after_drop(
                entries,
                notified,
                id,
            ).0[i]).id == without_key(entries, id)[i].id,
        after_drop(entries, notified, id).2.len() <= 1,
        forall|i: int|
            0 <= i < without_key(entries, id).len() && (#[trigger] without_key(entries, id)[i]).state is Waiting
                && after_drop(entries, notified, id).0[i].state is Notified ==> after_drop(
                entries,
                notified,
                id,
            ).2.contains(without_key(entries, id)[i].state->Waiting_0),
        forall|x: W|
            #[trigger] after_drop(entries, notified, id).2.contains(x) ==> exists|i: int|
                0 <= i < without_key(entries, id).len() && (#[trigger] without_key(entries, id)[i]).state
                    == ListenerState::<T, W>::Waiting(x) && after_drop(entries, notified, id).0[i].state is Notified,
        has_key(entries, id) ==> match entries[key_index(entries, id)].state {
            ListenerState::Notified(tag, additional) => (additional || notified == 1) && notified - 1
                < without_key(entries, id).len() ==> {
                &&& after_drop(entries, notified, id).0[notified - 1].state == ListenerState::<
                    T,
                    W,
                >::Notified(tag, additional)
                &&& after_drop(entries, notified, id).1 == notified
            },
            _ => true,
        },
{
    let (after, n, w) = after_drop(entries, notified, id);
    if has_key(entries, id) {
        let p = key_index(entries, id);
        let rest = entries.remove(p);
        match entries[p].state {
            ListenerState::Notified(tag, additional) => {
                let n1 = (notified - 1) as nat;
                let k = min_nat(reach(rest.len(), n1, 1, additional), 1);
                assert(0 <= p < entries.len());
                assert(entries[p].state is Notified);
                assert(p < notified);
                assert(n1 + k <= rest.len());
                let sub = rest.subrange(n1 as int, (n1 + k) as int);
                assert(after == notify_entries(rest, n1 as int, seq![tag].take(k as int), additional));
                assert(w == wakers_of(sub));
                assert(after.len() == rest.len());
                assert(sub.len() == k);
                assert forall|i: int|
                    0 <= i < rest.len() implies ((#[trigger] rest[i]).state is Notified <==> i < n1) by {
                    let oi = if i < p { i } else { i + 1 };
                    assert(rest[i] == entries[oi]);
                }
                wakers_are_the_waiting_ones(sub);
                assert forall|i: int|
                    0 <= i < rest.len() && (#[trigger] rest[i]).state is Waiting && after[i].state is Notified
                        implies w.contains(rest[i].state->Waiting_0) by {
                    assert(n1 <= i < n1 + k);
                    assert(sub[i - n1] == rest[i]);
                }
                assert forall|x: W| #[trigger] w.contains(x) implies exists|i: int|
                    0 <= i < rest.len() && (#[trigger] rest[i]).state == ListenerState::<T, W>::Waiting(x)
                        && after[i].state is Notified by {
                    let j = choose|j: int|
                        0 <= j < sub.len() && (#[trigger] sub[j]).state == ListenerState::<T, W>::Waiting(x);
                    assert(rest[n1 + j] == sub[j]);
                    assert(after[n1 + j].state is Notified);
                }
                if k == 1 {
                    reveal_with_fuel(wakers_of, 2);
                    assert(sub.drop_last() =~= Seq::<Entry<T, W>>::empty());
                } else {
                    assert(sub =~= Seq::<Entry<T, W>>::empty());
                }
                if (additional || notified == 1) && n1 < rest.len() {
                    assert(k == 1);
                }
            },
            _ => {
                assert(w.len() == 0);
                assert(forall|x: W| !w.contains(x));
            },
        }
    } else {
        assert(w.len() == 0);
        assert(forall|x: W| !w.contains(x));
    }
}

/// Keys are distinct, so once the entry at `p` is removed its key is gone.
pub proof fn removed_key_is_gone<T, W>(entries: Seq<Entry<T, W>>, p: int)
    requires
        0 <= p < entries.len(),
        forall|i: int, j: int|
            0 <= i < j < entries.len() ==> #[trigger] entries[i].id != #[trigger] entries[j].id,
    ensures
        !has_key(entries.remove(p), entries[p].id),
{
    let rest = entries.remove(p);
    if has_key(rest, entries[p].id) {
        let i = choose|i: int| 0 <= i < rest.len() && #[trigger] rest[i].id == entries[p].id;
        let oi = if i < p { i } else { i + 1 };
        assert(rest[i] == entries[oi]);
        if oi < p {
            assert(entries[oi].id != entries[p].id);
        } else {
            assert(entries[p].id != entries[oi].id);
        }
    }
}

/// A plain notification of `count` leaves `count` listeners notified, or all
/// of them if there are fewer, or as many as were notified before if that is
/// more: it never takes back a notification.
pub proof fn plain_notification_tops_up(len: nat, notified: nat, count: nat)
    requires
        notified <= len,
    ensures
        notified + reach(len, notified, count, false) == if count <= notified {
            notified
        } else if count <= len {
            count
        } else {
            len
        },
{
}

/// An additional notification of `count` notifies `count` more listeners, or
/// all that are left.
pub proof fn additional_notification_adds(len: nat, notified: nat, count: nat)
    requires
        notified <= len,
    ensures
        notified + reach(len, notified, count, true) == min_nat(notified + count, len),
{
}

/// A notified listener that is dropped before taking its tag hands the
/// notification on: after a plain one at least one listener stays notified
/// while any is left, and after an additional one as many as before (but the
/// dropped one) stay notified, as far as listeners are left.
pub proof fn dropped_notification_passes_on(len: nat, notified: nat, additional: bool)
    requires
        1 <= notified <= len,
    ensures
        ({
            let n1 = (notified - 1) as nat;
            let after = n1 + min_nat(reach((len - 1) as nat, n1, 1, additional), 1);
            if additional {
                after == min_nat(notified, (len - 1) as nat)
            } else {
                after == if n1 >= 1 {
                    n1
                } else {
                    min_nat(1, (len - 1) as nat)
                }
            }
        }),
{
}

/// A notification reaches only listeners that are registered and not yet
/// notified: with none of them it reaches no one.
pub proof fn notification_needs_waiting_listeners(len: nat, count: nat, additional: bool)
    ensures
        reach(len, len, count, additional) == 0,
{
}

} // verus!
