//! A second notification list, whose listeners keep their place after they
//! took their result.
//!
//! A listener joins the list when first polled and leaves only when dropped.
//! A notified listener that is polled takes its result and leaves a hole
//! behind, which still counts as notified. A notified listener dropped
//! before taking its result passes it on to the next listener.

use crate::event::{min_nat, reach, Poll};
use vstd::prelude::*;

verus! {

/// What a listener in the list is doing.
pub enum SlotState<T, W> {
    /// Registered, with no waker yet.
    Initialized,
    /// Waiting with this waker.
    Waiting(W),
    /// Notified with a result; the flag tells whether as an additional
    /// notification.
    Notified(T, bool),
    /// Notified, and the result was taken.
    Hole,
}

/// A listener in the list: its key and its state.
pub struct Slot<T, W> {
    pub id: u64,
    pub state: SlotState<T, W>,
}

/// A listener, known to the list by its key.
pub struct Listener {
    pub id: u64,
}

/// Does a state count as notified?
pub open spec fn counts_as_notified<T, W>(state: SlotState<T, W>) -> bool {
    state is Notified || state is Hole
}

/// Is some slot registered under `id`?
pub open spec fn has_slot<T, W>(slots: Seq<Slot<T, W>>, id: u64) -> bool {
    exists|i: int| 0 <= i < slots.len() && #[trigger] slots[i].id == id
}

/// The position of the slot registered under `id`.
pub open spec fn slot_index<T, W>(slots: Seq<Slot<T, W>>, id: u64) -> int {
    choose|i: int| 0 <= i < slots.len() && #[trigger] slots[i].id == id
}

/// `slots` after those from position `from` on took the `results`, in order.
pub open spec fn notify_slots<T, W>(
    slots: Seq<Slot<T, W>>,
    from: int,
    results: Seq<T>,
    additional: bool,
) -> Seq<Slot<T, W>> {
    Seq::new(
        slots.len(),
        |i: int|
            if from <= i < from + results.len() {
                Slot { id: slots[i].id, state: SlotState::Notified(results[i - from], additional) }
            } else {
                slots[i]
            },
    )
}

/// The wakers of the waiting listeners among `slots`, in order.
pub open spec fn slot_wakers<T, W>(slots: Seq<Slot<T, W>>) -> Seq<W>
    decreases slots.len(),
{
    if slots.len() == 0 {
        Seq::empty()
    } else {
        let rest = slot_wakers(slots.drop_last());
        match slots.last().state {
            SlotState::Waiting(w) => rest.push(w),
            _ => rest,
        }
    }
}

/// Notifying `n` listeners from the first not yet notified, handing out
/// `results`: how many are reached, the list after, the wakers to wake.
pub open spec fn after_list_notify<T, W>(
    slots: Seq<Slot<T, W>>,
    notified: nat,
    n: nat,
    additional: bool,
    results: Seq<T>,
) -> (nat, Seq<Slot<T, W>>, Seq<W>) {
    let k = min_nat(reach(slots.len(), notified, n, true), results.len());
    (
        k,
        notify_slots(slots, notified as int, results.take(k as int), additional),
        slot_wakers(slots.subrange(notified as int, (notified + k) as int)),
    )
}

/// Dropping the listener `id`: the list after, how many count as notified
/// after, and the wakers to wake. A listener that had not taken its result
/// hands it on as a notification of one of the same kind; a plain one goes
/// through only while at most one listener counts as notified, or none is
/// left to notify.
pub open spec fn after_slot_drop<T, W>(slots: Seq<Slot<T, W>>, notified: nat, id: u64) -> (
    Seq<Slot<T, W>>,
    nat,
    Seq<W>,
) {
    if !has_slot(slots, id) {
        (slots, notified, Seq::empty())
    } else {
        let p = slot_index(slots, id);
        let rest = slots.remove(p);
        match slots[p].state {
            SlotState::Notified(result, additional) => {
                let n1 = (notified - 1) as nat;
                let n = if additional {
                    1
                } else if rest.len() <= n1 {
                    0
                } else {
                    (1 - n1) as nat
                };
                let (k, after, w) = after_list_notify(rest, n1, n, additional, seq![result]);
                (after, n1 + k, w)
            },
            SlotState::Hole => (rest, (notified - 1) as nat, Seq::empty()),
            _ => (rest, notified, Seq::empty()),
        }
    }
}

/// The wakers of `slots` are exactly those of its waiting listeners.
pub proof fn slot_wakers_are_the_waiting_ones<T, W>(slots: Seq<Slot<T, W>>)
    ensures
        forall|i: int|
            0 <= i < slots.len() && (#[trigger] slots[i]).state is Waiting ==> slot_wakers(
                slots,
            ).contains(slots[i].state->Waiting_0),
        forall|x: W|
            #[trigger] slot_wakers(slots).contains(x) ==> exists|i: int|
                0 <= i < slots.len() && (#[trigger] slots[i]).state == SlotState::<T, W>::Waiting(x),
    decreases slots.len(),
{
    if slots.len() > 0 {
        let init = slots.drop_last();
        slot_wakers_are_the_waiting_ones(init);
        let rest = slot_wakers(init);
        let all = slot_wakers(slots);
        assert(all == match slots.last().state {
            SlotState::Waiting(x) => rest.push(x),
            _ => rest,
        });
        assert forall|i: int|
            0 <= i < slots.len() && (#[trigger] slots[i]).state is Waiting implies all.contains(
                slots[i].state->Waiting_0,
            ) by {
            let x = slots[i].state->Waiting_0;
            if i < slots.len() - 1 {
                assert(init[i] == slots[i]);
                assert(rest.contains(x));
                let j = choose|j: int| 0 <= j < rest.len() && rest[j] == x;
                assert(all[j] == x);
            } else {
                assert(all[rest.len() as int] == x);
            }
        }
        assert forall|x: W| #[trigger] all.contains(x) implies exists|i: int|
            0 <= i < slots.len() && (#[trigger] slots[i]).state == SlotState::<T, W>::Waiting(x) by {
            let j = choose|j: int| 0 <= j < all.len() && all[j] == x;
            if j < rest.len() {
                assert(all[j] == rest[j]);
                assert(rest.contains(x));
                let i = choose|i: int|
                    0 <= i < init.len() && (#[trigger] init[i]).state == SlotState::<T, W>::Waiting(x);
                assert(slots[i] == init[i]);
            } else {
                assert(slots[slots.len() - 1].state == SlotState::<T, W>::Waiting(x));
            }
        }
    }
}

/// A notification of `n` handing out `results` reaches as many listeners as
/// it can: `n` of them, unless fewer are left to notify or fewer results are
/// given. Those are the first listeners not yet notified; each takes its
/// result in order, and exactly the waiting ones among them are woken. So a
/// notification with enough reach and one result per listener leaves every
/// listener notified.
pub proof fn notification_reaches_as_many_as_it_can<T, W>(
    slots: Seq<Slot<T, W>>,
    notified: nat,
    n: nat,
    additional: bool,
    results: Seq<T>,
)
    requires
        notified <= slots.len(),
        forall|i: int|
            0 <= i < slots.len() ==> (counts_as_notified((#[trigger] slots[i]).state) <==> i
                < notified),
    ensures
        ({
            let (k, after, w) = after_list_notify(slots, notified, n, additional, results);
            let free = slots.len() - notified;
            &&& k <= n && k <= free && k <= results.len()
            &&& k == n || k == free || k == results.len()
            &&& after.len() == slots.len()
            &&& forall|i: int| 0 <= i < slots.len() ==> (#[trigger] after[i]).id == slots[i].id
            &&& forall|i: int|
                notified <= i < notified + k ==> (#[trigger] after[i]).state == SlotState::<
                    T,
                    W,
                >::Notified(results[i - notified], additional)
            &&& forall|i: int|
                0 <= i < slots.len() && !(notified <= i < notified + k) ==> #[trigger] after[i]
                    == slots[i]
            &&& (n >= free && results.len() >= free) ==> forall|i: int|
                0 <= i < after.len() ==> counts_as_notified((#[trigger] after[i]).state)
            &&& forall|i: int|
                0 <= i < slots.len() && (#[trigger] slots[i]).state is Waiting && after[i].state is Notified
                    ==> w.contains(slots[i].state->Waiting_0)
            &&& forall|x: W|
                #[trigger] w.contains(x) ==> exists|i: int|
                    0 <= i < slots.len() && (#[trigger] slots[i]).state == SlotState::<T, W>::Waiting(
                        x,
                    ) && after[i].state is Notified
        }),
{
    let (k, after, w) = after_list_notify(slots, notified, n, additional, results);
    let sub = slots.subrange(notified as int, (notified + k) as int);
    slot_wakers_are_the_waiting_ones(sub);
    assert forall|i: int|
        0 <= i < slots.len() && (#[trigger] slots[i]).state is Waiting && after[i].state is Notified
            implies w.contains(slots[i].state->Waiting_0) by {
        assert(notified <= i < notified + k);
        assert(sub[i - notified] == slots[i]);
    }
    assert forall|x: W| #[trigger] w.contains(x) implies exists|i: int|
        0 <= i < slots.len() && (#[trigger] slots[i]).state == SlotState::<T, W>::Waiting(x)
            && after[i].state is Notified by {
        let j = choose|j: int|
            0 <= j < sub.len() && (#[trigger] sub[j]).state == SlotState::<T, W>::Waiting(x);
        assert(slots[notified + j] == sub[j]);
        assert(after[notified + j].state is Notified);
    }
}

/// Keys are distinct, so the slot registered under the key at `p` is at `p`.
pub proof fn slot_index_is_position<T, W>(slots: Seq<Slot<T, W>>, p: int)
    requires
        0 <= p < slots.len(),
        forall|i: int, j: int|
            0 <= i < j < slots.len() ==> #[trigger] slots[i].id != #[trigger] slots[j].id,
    ensures
        has_slot(slots, slots[p].id),
        slot_index(slots, slots[p].id) == p,
{
    assert(slots[p].id == slots[p].id);
    let k = slot_index(slots, slots[p].id);
    if k != p {
        if k < p {
            assert(slots[k].id != slots[p].id);
        } else {
            assert(slots[p].id != slots[k].id);
        }
    }
}

/// Keys are distinct, so once the slot at `p` is removed its key is gone.
pub proof fn removed_slot_is_gone<T, W>(slots: Seq<Slot<T, W>>, p: int)
    requires
        0 <= p < slots.len(),
        forall|i: int, j: int|
            0 <= i < j < slots.len() ==> #[trigger] slots[i].id != #[trigger] slots[j].id,
    ensures
        !has_slot(slots.remove(p), slots[p].id),
{
    let rest = slots.remove(p);
    if has_slot(rest, slots[p].id) {
        let i = choose|i: int| 0 <= i < rest.len() && #[trigger] rest[i].id == slots[p].id;
        let oi = if i < p { i } else { i + 1 };
        assert(rest[i] == slots[oi]);
        if oi < p {
            assert(slots[oi].id != slots[p].id);
        } else {
            assert(slots[p].id != slots[oi].id);
        }
    }
}

/// A list of listeners.
pub struct Notify<T, W> {
    slots: Vec<Slot<T, W>>,
    notified: usize,
    next_id: u64,
}

impl<T, W> Notify<T, W> {
    /// The listeners in the list, oldest first.
    pub closed spec fn slots(&self) -> Seq<Slot<T, W>> {
        self.slots@
    }

    /// How many listeners count as notified: always the first ones.
    pub closed spec fn notified(&self) -> nat {
        self.notified as nat
    }

    /// The key the next listener gets.
    pub closed spec fn next_key(&self) -> u64 {
        self.next_id
    }

    /// The listeners counted as notified are exactly the first `notified()`,
    /// keys are distinct, and all lie below `next_key()`.
    pub open spec fn wf(&self) -> bool {
        &&& self.notified() <= self.slots().len()
        &&& forall|i: int|
            0 <= i < self.slots().len() ==> (counts_as_notified((#[trigger] self.slots()[i]).state)
                <==> i < self.notified())
        &&& forall|i: int, j: int|
            0 <= i < j < self.slots().len() ==> #[trigger] self.slots()[i].id
                != #[trigger] self.slots()[j].id
        &&& forall|i: int|
            0 <= i < self.slots().len() ==> (#[trigger] self.slots()[i]).id < self.next_key()
    }

    /// Creates an empty list.
    pub fn new() -> (list: Self)
        ensures
            list.wf(),
            list.slots() == Seq::<Slot<T, W>>::empty(),
            list.notified() == 0,
            list.next_key() == 0,
    {
        Notify { slots: Vec::new(), notified: 0, next_id: 0 }
    }

    /// The number of listeners in the list.
    pub fn len(&self) -> (len: usize)
        ensures
            len == self.slots().len(),
    {
        self.slots.len()
    }

    /// The number of listeners counted as notified.
    pub fn notified_count(&self) -> (count: usize)
        ensures
            count == self.notified(),
    {
        self.notified
    }

    /// Can another listener be created?
    pub fn can_listen(&self) -> (ok: bool)
        ensures
            ok == (self.next_key() < u64::MAX),
    {
        self.next_id < u64::MAX
    }

    /// Is `listener` registered, with its result taken?
    pub fn is_hole(&self, listener: &Listener) -> (hole: bool)
        requires
            self.wf(),
        ensures
            hole == (has_slot(self.slots(), listener.id) && self.slots()[slot_index(
                self.slots(),
                listener.id,
            )].state is Hole),
    {
        match self.find(listener.id) {
            None => false,
            Some(p) => match &self.slots[p].state {
                SlotState::Hole => true,
                _ => false,
            },
        }
    }

    /// Creates a listener; it joins the list when first polled.
    pub fn listen(&mut self) -> (listener: Listener)
        requires
            old(self).wf(),
            old(self).next_key() < u64::MAX,
        ensures
            final(self).wf(),
            listener.id == old(self).next_key(),
            final(self).next_key() == old(self).next_key() + 1,
            final(self).slots() == old(self).slots(),
            final(self).notified() == old(self).notified(),
            !has_slot(final(self).slots(), listener.id),
    {
        let id = self.next_id;
        self.next_id = self.next_id + 1;
        proof {
            if has_slot(self.slots(), id) {
                let i = slot_index(self.slots(), id);
                assert(self.slots()[i].id < old(self).next_key());
            }
        }
        Listener { id }
    }

    /// The position of the listener registered under `id`, if any.
    fn find(&self, id: u64) -> (pos: Option<usize>)
        requires
            self.wf(),
        ensures
            match pos {
                Some(p) => p < self.slots().len() && self.slots()[p as int].id == id && p
                    == slot_index(self.slots(), id),
                None => !has_slot(self.slots(), id),
            },
    {
        let mut i: usize = 0;
        while i < self.slots.len()
            invariant
                self.wf(),
                i <= self.slots@.len(),
                forall|j: int| 0 <= j < i ==> self.slots@[j].id != id,
            decreases self.slots@.len() - i,
        {
            if self.slots[i].id == id {
                proof {
                    let k = slot_index(self.slots(), id);
                    if k != i as int {
                        if k < i as int {
                            assert(self.slots()[k].id != self.slots()[i as int].id);
                        } else {
                            assert(self.slots()[i as int].id != self.slots()[k].id);
                        }
                    }
                }
                return Some(i);
            }
            i = i + 1;
        }
        None
    }

    /// Notifies up to `n` listeners, from the first not yet notified, with
    /// the `results` in order; stops when the list or the results run out.
    fn list_notify(&mut self, n: usize, additional: bool, results: Vec<T>) -> (res: (
        usize,
        Vec<W>,
        Vec<T>,
    ))
        requires
            old(self).wf(),
        ensures
            final(self).wf(),
            final(self).next_key() == old(self).next_key(),
            (res.0 as nat, final(self).slots(), res.1@) == after_list_notify(
                old(self).slots(),
                old(self).notified(),
                n as nat,
                additional,
                results@,
            ),
            final(self).notified() == old(self).notified() + res.0,
            res.2@ == results@.skip(res.0 as int),
    {
        let n0: usize = self.notified;
        let ghost old_slots = self.slots@;
        let ghost results0 = results@;
        let free: usize = self.slots.len() - self.notified;
        let mut remaining: usize = if n <= free {
            n
        } else {
            free
        };
        let mut k: usize = 0;
        let mut results = results;
        let mut wakers: Vec<W> = Vec::new();
        while remaining > 0 && results.len() > 0
            invariant
                old_slots.len() == self.slots@.len(),
                n0 <= old_slots.len(),
                forall|i: int|
                    0 <= i < old_slots.len() ==> (counts_as_notified((#[trigger] old_slots[i]).state)
                        <==> i < n0),
                forall|i: int, j: int|
                    0 <= i < j < old_slots.len() ==> #[trigger] old_slots[i].id
                        != #[trigger] old_slots[j].id,
                forall|i: int|
                    0 <= i < old_slots.len() ==> (#[trigger] old_slots[i]).id < self.next_id,
                self.notified == n0 + k,
                self.next_id == old(self).next_id,
                n0 + k + remaining <= old_slots.len(),
                k + remaining == reach(old_slots.len(), n0 as nat, n as nat, true),
                k <= results0.len(),
                results@ == results0.skip(k as int),
                self.slots@ == notify_slots(old_slots, n0 as int, results0.take(k as int), additional),
                wakers@ == slot_wakers(old_slots.subrange(n0 as int, n0 + k)),
            decreases remaining,
        {
            let result = results.remove(0);
            let idx = self.notified;
            let len = self.slots.len();
            assert(idx < len);
            let mut slot = Slot { id: 0, state: SlotState::Initialized };
            std::mem::swap(&mut slot, &mut self.slots[idx]);
            let id = slot.id;
            self.slots.set(idx, Slot { id, state: SlotState::Notified(result, additional) });
            proof {
                assert(slot == old_slots[idx as int]);
                let s = old_slots.subrange(n0 as int, n0 + k + 1);
                assert(s.drop_last() =~= old_slots.subrange(n0 as int, n0 + k));
                assert(s.last() == old_slots[idx as int]);
            }
            match slot.state {
                SlotState::Waiting(w) => {
                    wakers.push(w);
                },
                _ => {},
            }
            self.notified = idx + 1;
            k = k + 1;
            remaining = remaining - 1;
            proof {
                assert(results@ =~= results0.skip(k as int));
                assert(self.slots@ =~= notify_slots(
                    old_slots,
                    n0 as int,
                    results0.take(k as int),
                    additional,
                ));
            }
        }
        (k, wakers, results)
    }

    /// Notifies until `count` listeners count as notified, handing out the
    /// `results` in order. With no listener left to notify nothing happens;
    /// otherwise `count` must be at least the number already notified.
    /// Returns how many were notified, the wakers to wake, and the results
    /// left over.
    pub fn notify(&mut self, count: usize, results: Vec<T>) -> (res: (usize, Vec<W>, Vec<T>))
        requires
            old(self).wf(),
            old(self).slots().len() <= old(self).notified() || count >= old(self).notified(),
        ensures
            final(self).wf(),
            final(self).next_key() == old(self).next_key(),
            (res.0 as nat, final(self).slots(), res.1@) == after_list_notify(
                old(self).slots(),
                old(self).notified(),
                if old(self).slots().len() <= old(self).notified() {
                    0
                } else {
                    (count - old(self).notified()) as nat
                },
                false,
                results@,
            ),
            final(self).notified() == old(self).notified() + res.0,
            res.2@ == results@.skip(res.0 as int),
    {
        if self.slots.len() <= self.notified {
            assert(results@.skip(0) =~= results@);
            assert(old(self).slots().subrange(self.notified as int, self.notified as int) =~= Seq::<Slot<T, W>>::empty());
            assert(notify_slots(old(self).slots(), self.notified as int, results@.take(0), false) =~= old(self).slots());
            return (0, Vec::new(), results);
        }
        let n = count - self.notified;
        self.list_notify(n, false, results)
    }

    /// Notifies `count` more listeners, as additional notifications, handing
    /// out the `results` in order. Returns how many were notified, the wakers
    /// to wake, and the results left over.
    pub fn notify_additional(&mut self, count: usize, results: Vec<T>) -> (res: (
        usize,
        Vec<W>,
        Vec<T>,
    ))
        requires
            old(self).wf(),
        ensures
            final(self).wf(),
            final(self).next_key() == old(self).next_key(),
            (res.0 as nat, final(self).slots(), res.1@) == after_list_notify(
                old(self).slots(),
                old(self).notified(),
                count as nat,
                true,
                results@,
            ),
            final(self).notified() == old(self).notified() + res.0,
            res.2@ == results@.skip(res.0 as int),
    {
        self.list_notify(count, true, results)
    }

    /// Polls `listener`. One not in the list joins at the end and waits with
    /// `waker`; a waiting one waits with `waker`; a notified one takes its
    /// result, leaving a hole. A hole is never polled again. The waker comes
    /// back when it was not kept.
    pub fn poll(&mut self, listener: &Listener, waker: W) -> (res: (Poll<T>, Option<W>))
        requires
            old(self).wf(),
            listener.id < old(self).next_key(),
            has_slot(old(self).slots(), listener.id) ==> !(old(self).slots()[slot_index(
                old(self).slots(),
                listener.id,
            )].state is Hole),
        ensures
            final(self).wf(),
            final(self).next_key() == old(self).next_key(),
            final(self).notified() == old(self).notified(),
            res.1 == (if res.0 is Ready { Some(waker) } else { None::<W> }),
            !has_slot(old(self).slots(), listener.id) ==> {
                &&& res.0 is Pending
                &&& final(self).slots() == old(self).slots().push(
                    Slot { id: listener.id, state: SlotState::Waiting(waker) },
                )
            },
            has_slot(old(self).slots(), listener.id) ==> {
                let p = slot_index(old(self).slots(), listener.id);
                match old(self).slots()[p].state {
                    SlotState::Notified(result, _) => {
                        &&& res.0 == Poll::Ready(result)
                        &&& final(self).slots() == old(self).slots().update(
                            p,
                            Slot { id: listener.id, state: SlotState::Hole },
                        )
                    },
                    _ => {
                        &&& res.0 is Pending
                        &&& final(self).slots() == old(self).slots().update(
                            p,
                            Slot { id: listener.id, state: SlotState::Waiting(waker) },
                        )
                    },
                }
            },
    {
        let id = listener.id;
        match self.find(id) {
            None => {
                self.slots.push(Slot { id, state: SlotState::Waiting(waker) });
                proof {
                    assert forall|i: int, j: int|
                        0 <= i < j < self.slots@.len() implies #[trigger] self.slots@[i].id
                        != #[trigger] self.slots@[j].id by {
                        if j == self.slots@.len() - 1 {
                            assert(old(self).slots@[i].id == self.slots@[i].id);
                        }
                    }
                }
                (Poll::Pending, None)
            },
            Some(p) => {
                let mut slot = Slot { id: 0, state: SlotState::Hole };
                std::mem::swap(&mut slot, &mut self.slots[p]);
                match slot.state {
                    SlotState::Notified(result, _) => {
                        self.slots.set(p, Slot { id, state: SlotState::Hole });
                        proof {
                            assert forall|i: int, j: int|
                                0 <= i < j < self.slots@.len() implies #[trigger] self.slots@[i].id
                                != #[trigger] self.slots@[j].id by {
                                assert(old(self).slots@[i].id == self.slots@[i].id);
                                assert(old(self).slots@[j].id == self.slots@[j].id);
                            }
                        }
                        (Poll::Ready(result), Some(waker))
                    },
                    _ => {
                        self.slots.set(p, Slot { id, state: SlotState::Waiting(waker) });
                        proof {
                            assert forall|i: int, j: int|
                                0 <= i < j < self.slots@.len() implies #[trigger] self.slots@[i].id
                                != #[trigger] self.slots@[j].id by {
                                assert(old(self).slots@[i].id == self.slots@[i].id);
                                assert(old(self).slots@[j].id == self.slots@[j].id);
                            }
                        }
                        (Poll::Pending, None)
                    },
                }
            },
        }
    }

    /// Takes the listener `id` out of the list, if it is there, returning
    /// its position and state.
    fn remove_slot(&mut self, id: u64) -> (res: Option<(usize, SlotState<T, W>)>)
        requires
            old(self).wf(),
        ensures
            final(self).wf(),
            final(self).next_key() == old(self).next_key(),
            !has_slot(old(self).slots(), id) ==> res is None && final(self).slots() == old(
                self,
            ).slots() && final(self).notified() == old(self).notified(),
            has_slot(old(self).slots(), id) ==> {
                let p = slot_index(old(self).slots(), id);
                &&& res == Some((p as usize, old(self).slots()[p].state))
                &&& final(self).slots() == old(self).slots().remove(p)
                &&& final(self).notified() == if counts_as_notified(old(self).slots()[p].state) {
                    (old(self).notified() - 1) as nat
                } else {
                    old(self).notified()
                }
            },
    {
        match self.find(id) {
            None => None,
            Some(p) => {
                let slot = self.slots.remove(p);
                proof {
                    let rest = self.slots@;
                    assert(rest =~= old(self).slots@.remove(p as int));
                    assert forall|i: int, j: int|
                        0 <= i < j < rest.len() implies #[trigger] rest[i].id
                        != #[trigger] rest[j].id by {
                        let oi = if i < p { i } else { i + 1 };
                        let oj = if j < p { j } else { j + 1 };
                        assert(old(self).slots@[oi].id != old(self).slots@[oj].id);
                    }
                    assert forall|i: int|
                        0 <= i < rest.len() implies (#[trigger] rest[i]).id < self.next_id by {
                        let oi = if i < p { i } else { i + 1 };
                        assert(old(self).slots@[oi] == rest[i]);
                    }
                }
                let counted = match &slot.state {
                    SlotState::Notified(_, _) => true,
                    SlotState::Hole => true,
                    _ => false,
                };
                if counted {
                    self.notified = self.notified - 1;
                }
                proof {
                    let rest = self.slots@;
                    assert forall|i: int|
                        0 <= i < rest.len() implies (counts_as_notified((#[trigger] rest[i]).state)
                        <==> i < self.notified) by {
                        let oi = if i < p { i } else { i + 1 };
                        assert(old(self).slots@[oi] == rest[i]);
                    }
                }
                Some((p, slot.state))
            },
        }
    }

    /// Drops `listener`. It leaves the list; if it was notified and had not
    /// taken its result, the result goes on to the next listener, as a
    /// notification of the same kind. A plain one is then handed on only
    /// while at most one listener counts as notified, or none is left to
    /// notify.
    pub fn drop_listener(&mut self, listener: Listener) -> (wakers: Vec<W>)
        requires
            old(self).wf(),
            has_slot(old(self).slots(), listener.id) ==> (old(self).slots()[slot_index(
                old(self).slots(),
                listener.id,
            )].state matches SlotState::Notified(_, additional) && !additional ==> (
            old(self).notified() <= 2 || old(self).slots().len() <= old(self).notified())),
        ensures
            final(self).wf(),
            final(self).next_key() == old(self).next_key(),
            (final(self).slots(), final(self).notified(), wakers@) == after_slot_drop(
                old(self).slots(),
                old(self).notified(),
                listener.id,
            ),
    {
        match self.remove_slot(listener.id) {
            None => Vec::new(),
            Some((_, state)) => match state {
                SlotState::Notified(result, additional) => {
                    let mut results: Vec<T> = Vec::new();
                    results.push(result);
                    assert(results@ =~= seq![result]);
                    if additional {
                        let (_, wakers, _) = self.notify_additional(1, results);
                        wakers
                    } else {
                        let (_, wakers, _) = self.notify(1, results);
                        wakers
                    }
                },
                _ => Vec::new(),
            },
        }
    }
}

} // verus!
