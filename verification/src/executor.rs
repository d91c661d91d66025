//! The scheduling rules of a single-threaded executor.
//!
//! A task woken on the executor's own thread is handed straight to a runner
//! waiting on the thread's event, or else joins the thread's queue. A task
//! woken on any other thread joins the shared queue, and the runner of the
//! shared queue is woken. A tick runs a task from the thread's queue first,
//! then from the shared one. The set of running tasks is kept by key.

use crate::event::{
    after_drop, after_poll, has_key, notify_entries, reach, wakers_of, Entry, Event, Poll, Wait,
};
use crate::queue::Queue;
use atomic_waker::AtomicWaker;
use concurrent_queue::ConcurrentQueue;
use slab::Slab;
use std::task::Waker;
use vstd::prelude::*;

verus! {

#[verifier::external_type_specification]
#[verifier::external_body]
pub struct ExWaker(Waker);

#[verifier::external_type_specification]
#[verifier::external_body]
pub struct ExAtomicWaker(AtomicWaker);

#[verifier::external_type_specification]
#[verifier::external_body]
#[verifier::reject_recursive_types(T)]
pub struct ExSlab<T>(Slab<T>);

#[verifier::external_type_specification]
#[verifier::external_body]
#[verifier::reject_recursive_types(T)]
pub struct ExConcurrentQueue<T>(ConcurrentQueue<T>);

/// The keys of the entries in a slab of wakers.
pub uninterp spec fn slab_keys(slab: Slab<Waker>) -> Set<usize>;

/// The key that the next insertion into a slab of wakers uses.
pub uninterp spec fn slab_vacant(slab: Slab<Waker>) -> usize;

/// `Slab::new`: an empty slab.
#[verifier::external_body]
fn slab_new() -> (slab: Slab<Waker>)
    ensures
        slab_keys(slab) == Set::<usize>::empty(),
{
    Slab::new()
}

/// `Slab::vacant_key`: the key the next insertion uses, which no entry holds.
#[verifier::external_body]
fn slab_vacant_key(slab: &Slab<Waker>) -> (key: usize)
    ensures
        key == slab_vacant(*slab),
        !slab_keys(*slab).contains(key),
{
    slab.vacant_key()
}

/// `Slab::insert`: stores the waker under the vacant key and returns it.
#[verifier::external_body]
fn slab_insert(slab: &mut Slab<Waker>, waker: Waker) -> (key: usize)
    ensures
        key == slab_vacant(*old(slab)),
        slab_keys(*final(slab)) == slab_keys(*old(slab)).insert(key),
{
    slab.insert(waker)
}

/// `Slab::try_remove`: takes out the entry under `key`, if there is one.
#[verifier::external_body]
fn slab_try_remove(slab: &mut Slab<Waker>, key: usize) -> (waker: Option<Waker>)
    ensures
        waker is Some <==> slab_keys(*old(slab)).contains(key),
        slab_keys(*final(slab)) == slab_keys(*old(slab)).remove(key),
{
    slab.try_remove(key)
}

/// `ConcurrentQueue::unbounded`: an unbounded queue that other threads may
/// share.
#[verifier::external_body]
fn shared_queue_new<R>() -> (queue: ConcurrentQueue<R>) {
    ConcurrentQueue::unbounded()
}

/// `ConcurrentQueue::push`: on failure (a closed queue) the value comes back
/// unchanged.
#[verifier::external_body]
fn shared_queue_push<R>(queue: &ConcurrentQueue<R>, value: R) -> (res: Result<(), R>)
    ensures
        res matches Err(v) ==> v == value,
{
    match queue.push(value) {
        Ok(()) => Ok(()),
        Err(e) => Err(e.into_inner()),
    }
}

/// `ConcurrentQueue::pop`: a value, if other threads left one.
#[verifier::external_body]
fn shared_queue_pop<R>(queue: &ConcurrentQueue<R>) -> (value: Option<R>) {
    queue.pop().ok()
}

/// `ConcurrentQueue::is_empty`, at the moment of the call.
#[verifier::external_body]
fn shared_queue_is_empty<R>(queue: &ConcurrentQueue<R>) -> (empty: bool) {
    queue.is_empty()
}

/// `AtomicWaker::new`: no waker registered.
#[verifier::external_body]
fn atomic_waker_new() -> (waker: AtomicWaker) {
    AtomicWaker::new()
}

/// `AtomicWaker::wake`: wakes the registered waker, if any.
#[verifier::external_body]
fn atomic_waker_wake(waker: &AtomicWaker) {
    waker.wake()
}

/// Does a task woken on thread `current` belong on the executor's own
/// thread `origin`? Only when both are known and the same.
pub open spec fn is_local(origin: Option<usize>, current: Option<usize>) -> bool {
    origin is Some && current is Some && origin == current
}

/// Does a task woken on thread `current` go to the thread's own queue?
pub fn runs_locally(origin: Option<usize>, current: Option<usize>) -> (local: bool)
    ensures
        local == is_local(origin, current),
{
    match (origin, current) {
        (Some(o), Some(c)) => o == c,
        _ => false,
    }
}

/// The part of an executor that any thread reaches: the shared queue, the
/// waker of the runner that serves it, and the executor's own thread.
#[verifier::reject_recursive_types(R)]
pub struct Shared<R> {
    pub task_queue: ConcurrentQueue<R>,
    pub mainstream_waker: AtomicWaker,
    pub origin_thread: Option<usize>,
}

impl<R> Shared<R> {
    /// The shared part of an executor on thread `origin_thread`.
    pub fn new(origin_thread: Option<usize>) -> (shared: Self)
        ensures
            shared.origin_thread == origin_thread,
    {
        Shared {
            task_queue: shared_queue_new(),
            mainstream_waker: atomic_waker_new(),
            origin_thread,
        }
    }
}

/// The part of an executor that only its own thread reaches.
pub struct ThreadState<R> {
    task_queue: Queue<R>,
    thread_waker: Event<Option<R>, Waker>,
    active: Slab<Waker>,
    is_mainstream_listening: bool,
}

/// Where a tick took its task from.
#[derive(Debug, PartialEq, Eq)]
pub enum TickSource {
    /// The thread's own queue.
    Local,
    /// The shared queue.
    Shared,
}

impl<R> ThreadState<R> {
    /// The tasks in the thread's queue, oldest first.
    pub closed spec fn queued(&self) -> Seq<R> {
        self.task_queue@
    }

    /// The runners waiting on the thread's event.
    pub closed spec fn runners(&self) -> Seq<Entry<Option<R>, Waker>> {
        self.thread_waker.entries()
    }

    /// How many runners are notified.
    pub closed spec fn notified(&self) -> nat {
        self.thread_waker.notified()
    }

    /// The key the next runner gets.
    pub closed spec fn next_key(&self) -> u64 {
        self.thread_waker.next_key()
    }

    /// The keys of the running tasks.
    pub closed spec fn active(&self) -> Set<usize> {
        slab_keys(self.active)
    }

    /// The key the next running task gets.
    pub closed spec fn next_active(&self) -> usize {
        slab_vacant(self.active)
    }

    /// Is someone serving the shared queue?
    pub closed spec fn mainstream_listening(&self) -> bool {
        self.is_mainstream_listening
    }

    /// The runners are well formed.
    pub closed spec fn wf(&self) -> bool {
        self.thread_waker.wf()
    }

    /// A thread state with nothing queued, no runner and no task.
    pub fn new() -> (state: Self)
        ensures
            state.wf(),
            state.queued() == Seq::<R>::empty(),
            state.runners().len() == 0,
            state.notified() == 0,
            state.active() == Set::<usize>::empty(),
            !state.mainstream_listening(),
    {
        ThreadState {
            task_queue: Queue::new(0),
            thread_waker: Event::new(),
            active: slab_new(),
            is_mainstream_listening: false,
        }
    }

    /// The key the next spawned task will be kept under; no running task
    /// holds it.
    pub fn vacant_key(&self) -> (key: usize)
        ensures
            key == self.next_active(),
            !self.active().contains(key),
    {
        slab_vacant_key(&self.active)
    }

    /// Keeps a spawned task's waker among the running tasks, under the key
    /// `vacant_key` announced.
    pub fn insert_active(&mut self, waker: Waker) -> (key: usize)
        ensures
            key == old(self).next_active(),
            final(self).active() == old(self).active().insert(key),
            final(self).queued() == old(self).queued(),
            final(self).runners() == old(self).runners(),
            final(self).notified() == old(self).notified(),
            final(self).next_key() == old(self).next_key(),
            final(self).wf() == old(self).wf(),
    {
        slab_insert(&mut self.active, waker)
    }

    /// A task finished: its key leaves the running tasks. Returns whether it
    /// was there.
    pub fn remove_active(&mut self, key: usize) -> (removed: bool)
        ensures
            removed == old(self).active().contains(key),
            final(self).active() == old(self).active().remove(key),
            final(self).queued() == old(self).queued(),
            final(self).runners() == old(self).runners(),
            final(self).notified() == old(self).notified(),
            final(self).next_key() == old(self).next_key(),
            final(self).wf() == old(self).wf(),
    {
        let waker = slab_try_remove(&mut self.active, key);
        waker.is_some()
    }

    /// Is the thread's queue empty?
    pub fn queue_is_empty(&self) -> (empty: bool)
        ensures
            empty == (self.queued().len() == 0),
    {
        self.task_queue.is_empty()
    }

    /// Schedules a task on the executor's own thread: when no runner is
    /// notified and one waits, the oldest waiting runner is handed the task
    /// (its waker is returned); otherwise the task joins the thread's queue.
    pub fn schedule_local(&mut self, runnable: R) -> (wakers: Vec<Waker>)
        requires
            old(self).wf(),
        ensures
            final(self).wf(),
            final(self).active() == old(self).active(),
            final(self).next_key() == old(self).next_key(),
            ({
                let k = reach(old(self).runners().len(), old(self).notified(), 1, false);
                &&& final(self).runners() == notify_entries(
                    old(self).runners(),
                    old(self).notified() as int,
                    seq![Some(runnable)].take(k as int),
                    false,
                )
                &&& final(self).notified() == old(self).notified() + k
                &&& wakers@ == wakers_of(
                    old(self).runners().subrange(
                        old(self).notified() as int,
                        (old(self).notified() + k) as int,
                    ),
                )
                &&& final(self).queued() == if k == 0 {
                    old(self).queued().push(runnable)
                } else {
                    old(self).queued()
                }
            }),
    {
        let mut tags: Vec<Option<R>> = Vec::new();
        tags.push(Some(runnable));
        assert(tags@ =~= seq![Some(runnable)]);
        let (n, wakers, mut left) = self.thread_waker.notify(1, false, tags);
        if n == 0 {
            assert(left@ =~= seq![Some(runnable)]);
            let back = left.remove(0);
            match back {
                Some(r) => self.task_queue.push(r),
                None => {},
            }
        }
        wakers
    }

    /// Can another runner wait?
    pub fn can_wait(&self) -> (ok: bool)
        ensures
            ok == (self.next_key() < u64::MAX),
    {
        self.thread_waker.can_listen()
    }

    /// Starts a runner's wait on the thread's event.
    pub fn start_runner_wait(&mut self) -> (wait: Wait)
        requires
            old(self).wf(),
            old(self).next_key() < u64::MAX,
        ensures
            final(self).wf(),
            !wait.waiting,
            !has_key(final(self).runners(), wait.listener.id),
            wait.listener.id < final(self).next_key(),
            final(self).next_key() == old(self).next_key() + 1,
            final(self).runners() == old(self).runners(),
            final(self).notified() == old(self).notified(),
            final(self).queued() == old(self).queued(),
            final(self).active() == old(self).active(),
    {
        self.thread_waker.start_wait()
    }

    /// Polls a waiting runner: it takes what it was notified with (a task
    /// handed straight to it, or `None`), or else waits with `waker`.
    pub fn poll_runner(&mut self, wait: &mut Wait, waker: Waker) -> (res: Option<Option<R>>)
        requires
            old(self).wf(),
            old(wait).listener.id < old(self).next_key(),
        ensures
            final(self).wf(),
            final(self).next_key() == old(self).next_key(),
            final(self).queued() == old(self).queued(),
            final(self).active() == old(self).active(),
            final(wait).listener == old(wait).listener,
            ({
                let (r, after, n) = after_poll(
                    old(self).runners(),
                    old(self).notified(),
                    old(wait).listener.id,
                    waker,
                );
                &&& final(self).runners() == after
                &&& final(self).notified() == n
                &&& match r {
                    Poll::Ready(tag) => res == Some(tag) && !final(wait).waiting,
                    Poll::Pending => res is None && final(wait).waiting,
                }
            }),
    {
        let (p, _) = self.thread_waker.poll(&wait.listener, waker);
        match p {
            Poll::Ready(tag) => {
                wait.waiting = false;
                Some(tag)
            },
            Poll::Pending => {
                wait.waiting = true;
                None
            },
        }
    }

    /// A runner stops waiting: its listener leaves, passing on a
    /// notification it had not taken.
    pub fn drop_runner_wait(&mut self, wait: Wait) -> (wakers: Vec<Waker>)
        requires
            old(self).wf(),
        ensures
            final(self).wf(),
            final(self).next_key() == old(self).next_key(),
            final(self).queued() == old(self).queued(),
            final(self).active() == old(self).active(),
            (final(self).runners(), final(self).notified(), wakers@) == after_drop(
                old(self).runners(),
                old(self).notified(),
                wait.listener.id,
            ),
    {
        self.thread_waker.drop_listener(wait.listener)
    }

    /// Takes the oldest task of the thread's queue. When there is one, one
    /// more runner is woken (with no task handed to it) in case this one
    /// takes a while; the wakers are returned.
    pub fn pop_local(&mut self) -> (res: Option<(R, Vec<Waker>)>)
        requires
            old(self).wf(),
        ensures
            final(self).wf(),
            final(self).active() == old(self).active(),
            final(self).next_key() == old(self).next_key(),
            old(self).queued().len() == 0 ==> {
                &&& res is None
                &&& final(self).queued() == old(self).queued()
                &&& final(self).runners() == old(self).runners()
                &&& final(self).notified() == old(self).notified()
            },
            old(self).queued().len() > 0 ==> {
                let k = reach(old(self).runners().len(), old(self).notified(), 1, false);
                &&& res matches Some((r, w)) && r == old(self).queued()[0] && w@ == wakers_of(
                    old(self).runners().subrange(
                        old(self).notified() as int,
                        (old(self).notified() + k) as int,
                    ),
                )
                &&& final(self).queued() == old(self).queued().drop_first()
                &&& final(self).runners() == notify_entries(
                    old(self).runners(),
                    old(self).notified() as int,
                    seq![None::<R>].take(k as int),
                    false,
                )
                &&& final(self).notified() == old(self).notified() + k
            },
    {
        match self.task_queue.pop() {
            None => None,
            Some(r) => {
                let mut tags: Vec<Option<R>> = Vec::new();
                tags.push(None);
                assert(tags@ =~= seq![None::<R>]);
                let (_, wakers, _) = self.thread_waker.notify(1, false, tags);
                Some((r, wakers))
            },
        }
    }
}

/// Schedules a task woken on thread `current`. On the executor's own thread
/// it goes to the thread (see `schedule_local`); elsewhere it joins the
/// shared queue and the shared queue's runner is woken, unless the queue
/// refuses it, when it comes back to be leaked. Returns the runners' wakers
/// and the refused task.
pub fn schedule<R>(
    shared: &Shared<R>,
    thread: &mut ThreadState<R>,
    current: Option<usize>,
    runnable: R,
) -> (res: (Vec<Waker>, Option<R>))
    requires
        old(thread).wf(),
    ensures
        final(thread).wf(),
        final(thread).active() == old(thread).active(),
        final(thread).next_key() == old(thread).next_key(),
        !is_local(shared.origin_thread, current) ==> {
            &&& res.0@.len() == 0
            &&& (res.1 matches Some(r) ==> r == runnable)
            &&& final(thread).queued() == old(thread).queued()
            &&& final(thread).runners() == old(thread).runners()
            &&& final(thread).notified() == old(thread).notified()
        },
        is_local(shared.origin_thread, current) ==> {
            let k = reach(old(thread).runners().len(), old(thread).notified(), 1, false);
            &&& res.1 is None
            &&& final(thread).runners() == notify_entries(
                old(thread).runners(),
                old(thread).notified() as int,
                seq![Some(runnable)].take(k as int),
                false,
            )
            &&& final(thread).notified() == old(thread).notified() + k
            &&& res.0@ == wakers_of(
                old(thread).runners().subrange(
                    old(thread).notified() as int,
                    (old(thread).notified() + k) as int,
                ),
            )
            &&& final(thread).queued() == if k == 0 {
                old(thread).queued().push(runnable)
            } else {
                old(thread).queued()
            }
        },
{
    if runs_locally(shared.origin_thread, current) {
        let wakers = thread.schedule_local(runnable);
        return (wakers, None);
    }
    (Vec::new(), schedule_shared(shared, runnable))
}

/// Schedules a task from a thread other than the executor's own: it joins
/// the shared queue and the shared queue's runner is woken; a queue that
/// refuses it hands it back, to be leaked.
pub fn schedule_shared<R>(shared: &Shared<R>, runnable: R) -> (refused: Option<R>)
    ensures
        refused matches Some(r) ==> r == runnable,
{
    let pushed = shared_queue_push(&shared.task_queue, runnable);
    after_shared_push(shared, pushed)
}

/// What follows a push onto the shared queue: a task that the queue took
/// wakes the shared queue's runner and nothing comes back; a task that it
/// refused comes back.
pub fn after_shared_push<R>(shared: &Shared<R>, pushed: Result<(), R>) -> (refused: Option<R>)
    ensures
        refused == match pushed {
            Ok(()) => None,
            Err(r) => Some(r),
        },
{
    match pushed {
        Err(r) => Some(r),
        Ok(()) => {
            atomic_waker_wake(&shared.mainstream_waker);
            None
        },
    }
}

/// Picks the task a tick runs: the oldest of the thread's queue (waking one
/// more runner, see `pop_local`), or else one from the shared queue (waking
/// the shared queue's runner). Returns the task, where it came from, and the
/// runners' wakers.
pub fn pick_task<R>(shared: &Shared<R>, thread: &mut ThreadState<R>) -> (res: (
    Option<(R, TickSource)>,
    Vec<Waker>,
))
    requires
        old(thread).wf(),
    ensures
        final(thread).wf(),
        final(thread).active() == old(thread).active(),
        final(thread).next_key() == old(thread).next_key(),
        old(thread).queued().len() > 0 ==> {
            let k = reach(old(thread).runners().len(), old(thread).notified(), 1, false);
            &&& res.0 matches Some((r, src)) && r == old(thread).queued()[0] && src
                == TickSource::Local
            &&& final(thread).queued() == old(thread).queued().drop_first()
            &&& final(thread).runners() == notify_entries(
                old(thread).runners(),
                old(thread).notified() as int,
                seq![None::<R>].take(k as int),
                false,
            )
            &&& final(thread).notified() == old(thread).notified() + k
            &&& res.1@ == wakers_of(
                old(thread).runners().subrange(
                    old(thread).notified() as int,
                    (old(thread).notified() + k) as int,
                ),
            )
        },
        old(thread).queued().len() == 0 ==> {
            &&& res.0 matches Some((_, src)) ==> src == TickSource::Shared
            &&& res.1@.len() == 0
            &&& final(thread).queued() == old(thread).queued()
            &&& final(thread).runners() == old(thread).runners()
            &&& final(thread).notified() == old(thread).notified()
        },
{
    match thread.pop_local() {
        Some((r, wakers)) => (Some((r, TickSource::Local)), wakers),
        None => match shared_queue_pop(&shared.task_queue) {
            Some(r) => {
                atomic_waker_wake(&shared.mainstream_waker);
                (Some((r, TickSource::Shared)), Vec::new())
            },
            None => (None, Vec::new()),
        },
    }
}

/// What `try_tick` reports after running the task that `pick_task` picked:
/// `true` whenever a task ran, from either queue.
pub fn tick_reported(picked: &Option<TickSource>) -> (reported: bool)
    ensures
        reported == picked.is_some(),
{
    match picked {
        Some(_) => true,
        None => false,
    }
}

/// Is the executor empty: is no task queued in either queue?
pub fn is_empty<R>(shared: &Shared<R>, thread: &ThreadState<R>) -> (empty: bool)
    ensures
        thread.queued().len() > 0 ==> !empty,
{
    if !thread.queue_is_empty() {
        return false;
    }
    let shared_empty = shared_queue_is_empty(&shared.task_queue);
    empty_given_shared(thread, shared_empty)
}

/// Is the executor empty, given what the shared queue reported? Only both
/// queues being empty makes it empty.
pub fn empty_given_shared<R>(thread: &ThreadState<R>, shared_empty: bool) -> (empty: bool)
    ensures
        empty == (thread.queued().len() == 0 && shared_empty),
{
    thread.queue_is_empty() && shared_empty
}

} // verus!
