//! The shared state of a spawned task, and the handles to it.
//!
//! A task is reached through handles: the `Task` that awaits its output, the
//! `Runnable` that the scheduler runs, and wakers. They share a header: a
//! reference word whose lowest bit asks for the task to be scheduled again
//! and whose higher bits count the references, and the flags `cancelled`,
//! `scheduled` and `completed`. The future itself
//! is polled by the caller; the header decides when to schedule, when to hand
//! out the output, and when the last reference is gone.

use std::marker::PhantomData;
use vstd::prelude::*;

verus! {

/// The lowest bit of the reference word: the task asks to be scheduled again.
pub const NEEDS_SCHEDULE: usize = 1;

/// How far the reference count sits above the reschedule bit.
pub const REFCOUNT_SHIFT: usize = 1;

/// The amount by which one reference moves the reference word: the lowest
/// bit above the reschedule bit, so that counting never touches that bit.
pub const REFCOUNT_ONE: usize = 2;

/// Does the reference word ask for the task to be scheduled again?
pub open spec fn needs_schedule(word: usize) -> bool {
    word % 2 == 1
}

/// The number of references that the reference word counts.
pub open spec fn references(word: usize) -> nat {
    (word / 2) as nat
}

/// The reference word with the reschedule bit set.
pub open spec fn with_needs_schedule(word: usize) -> usize {
    if word % 2 == 1 { word } else { (word + 1) as usize }
}

/// The reference word with the reschedule bit cleared.
pub open spec fn without_needs_schedule(word: usize) -> usize {
    (word - word % 2) as usize
}

/// The reference word after one reference is dropped: it moves down by one
/// reference, keeping the reschedule bit, and wraps below zero.
pub open spec fn after_drop_ref(word: usize) -> usize {
    if word >= 2 { (word - 2) as usize } else { (word + usize::MAX - 1) as usize }
}

/// Counting references never touches the reschedule bit: one more
/// reference adds one to the count, and dropping one takes one away.
pub proof fn counting_keeps_the_reschedule_bit(word: usize)
    ensures
        word <= usize::MAX - REFCOUNT_ONE ==> {
            &&& needs_schedule((word + REFCOUNT_ONE) as usize) == needs_schedule(word)
            &&& references((word + REFCOUNT_ONE) as usize) == references(word) + 1
        },
        needs_schedule(after_drop_ref(word)) == needs_schedule(word),
        references(word) > 0 ==> references(after_drop_ref(word)) + 1 == references(word),
{
}

/// A wake always leaves the word asking for the task to be scheduled again,
/// however many times it comes, and never changes the reference count.
pub proof fn wake_asks_for_a_schedule(word: usize)
    ensures
        needs_schedule(with_needs_schedule(word)),
        references(with_needs_schedule(word)) == references(word),
        with_needs_schedule(with_needs_schedule(word)) == with_needs_schedule(word),
        needs_schedule(word) ==> with_needs_schedule(word) == word,
        !needs_schedule(without_needs_schedule(word)),
        references(without_needs_schedule(word)) == references(word),
{
}

fn set_needs_schedule(word: usize) -> (r: usize)
    ensures
        r == with_needs_schedule(word),
{
    let r = word | NEEDS_SCHEDULE;
    assert(word | 1usize == if word % 2 == 1 { word } else { (word + 1) as usize }) by (bit_vector);
    r
}

fn clear_needs_schedule(word: usize) -> (r: usize)
    ensures
        r == without_needs_schedule(word),
{
    let r = word & !NEEDS_SCHEDULE;
    assert(word & !1usize == (word - word % 2) as usize) by (bit_vector);
    r
}

fn has_needs_schedule(word: usize) -> (r: bool)
    ensures
        r == needs_schedule(word),
{
    assert(word & 1usize == word % 2) by (bit_vector);
    word & NEEDS_SCHEDULE != 0
}

/// The header that the handles of a task share, with the task's output once
/// it completed and until it is taken.
pub struct TaskHeader<T> {
    refcount: usize,
    cancelled: bool,
    scheduled: bool,
    completed: bool,
    output: Option<T>,
}

/// What a `Task` or a `Detached` learns from a poll.
#[derive(Debug, PartialEq, Eq)]
pub enum TaskPoll<T> {
    /// The task completed and this is its output.
    Output(T),
    /// The task was cancelled and is not scheduled: it will never finish.
    Cancelled,
    /// Not yet. A runnable comes with it when the scheduler is to be called
    /// with it.
    Pending(Option<Runnable>),
}

/// What dropping a reference or a handle asks of the caller.
#[derive(Debug, PartialEq, Eq)]
pub struct Release {
    /// The runnable to call the scheduler with, if any.
    pub schedule: Option<Runnable>,
    /// The last reference is gone: free the task.
    pub destroy: bool,
}

/// The handle that detaches or cancels a task; `attached` until dropped.
pub struct Detached {
    attached: bool,
}

/// The handle that awaits a task's output.
pub struct Task<T> {
    inner: Detached,
    _output: PhantomData<T>,
}

/// A task handle whose await gives `None` when the task was cancelled.
pub struct FallibleTask<T>(pub Task<T>);

/// The handle by which the scheduler runs a task once.
#[derive(Debug, PartialEq, Eq)]
pub struct Runnable {
    _private: (),
}

impl<T> TaskHeader<T> {
    /// The reference word.
    pub closed spec fn refcount(&self) -> usize {
        self.refcount
    }

    /// Was the task cancelled?
    pub closed spec fn is_cancelled(&self) -> bool {
        self.cancelled
    }

    /// Is the task scheduled to run?
    pub closed spec fn is_scheduled(&self) -> bool {
        self.scheduled
    }

    /// Has the task completed?
    pub closed spec fn is_completed(&self) -> bool {
        self.completed
    }

    /// The output, from completion until it is taken.
    pub closed spec fn output(&self) -> Option<T> {
        self.output
    }

    /// An output is only held by a completed task.
    pub closed spec fn wf(&self) -> bool {
        self.output is Some ==> self.completed
    }

    /// A task that holds an output has completed.
    pub proof fn output_only_when_completed(&self)
        requires
            self.wf(),
        ensures
            self.output() is Some ==> self.is_completed(),
    {
    }

    /// Spawns a task: a header with two references (the task handle and the
    /// runnable), nothing set, and the two handles.
    pub fn spawn() -> (res: (TaskHeader<T>, Runnable, Task<T>))
        ensures
            res.0.wf(),
            res.0.refcount() == 4,
            !res.0.is_cancelled(),
            !res.0.is_scheduled(),
            !res.0.is_completed(),
            res.0.output() is None,
            res.2.is_attached(),
    {
        let header = TaskHeader {
            refcount: 2usize << REFCOUNT_SHIFT,
            cancelled: false,
            scheduled: false,
            completed: false,
            output: None,
        };
        assert(2usize << 1usize == 4usize) by (bit_vector);
        (header, Runnable { _private: () }, Task { inner: Detached { attached: true }, _output: PhantomData })
    }

    /// One more reference. Aborts past `isize::MAX`, so that is left out.
    pub fn increment_ref(&mut self)
        requires
            old(self).refcount() <= isize::MAX,
        ensures
            final(self).wf() == old(self).wf(),
            final(self).refcount() == old(self).refcount() + REFCOUNT_ONE,
            final(self).is_cancelled() == old(self).is_cancelled(),
            final(self).is_scheduled() == old(self).is_scheduled(),
            final(self).is_completed() == old(self).is_completed(),
            final(self).output() == old(self).output(),
    {
        self.refcount = self.refcount + REFCOUNT_ONE;
    }

    /// One reference less. Returns whether it was the last one, when the
    /// task is to be freed.
    pub fn decrement_ref(&mut self) -> (destroy: bool)
        ensures
            destroy == (references(old(self).refcount()) == 1),
            final(self).wf() == old(self).wf(),
            final(self).refcount() == after_drop_ref(old(self).refcount()),
            final(self).is_cancelled() == old(self).is_cancelled(),
            final(self).is_scheduled() == old(self).is_scheduled(),
            final(self).is_completed() == old(self).is_completed(),
            final(self).output() == old(self).output(),
    {
        let old_count = self.refcount;
        if old_count >= REFCOUNT_ONE {
            self.refcount = old_count - REFCOUNT_ONE;
        } else {
            self.refcount = usize::MAX - (REFCOUNT_ONE - 1 - old_count);
        }
        old_count / REFCOUNT_ONE == 1
    }

    /// Schedules the task unless it is scheduled already or completed;
    /// scheduling takes a new reference when `increment` is set. Returns the
    /// new runnable to call the scheduler with, if any.
    pub fn schedule_inner(&mut self, increment: bool) -> (runnable: Option<Runnable>)
        requires
            old(self).refcount() <= isize::MAX,
        ensures
            final(self).wf() == old(self).wf(),
            runnable is Some <==> (!old(self).is_scheduled() && !old(self).is_completed()),
            final(self).is_scheduled(),
            final(self).refcount() == if runnable is Some && increment {
                (old(self).refcount() + REFCOUNT_ONE) as usize
            } else {
                old(self).refcount()
            },
            final(self).is_cancelled() == old(self).is_cancelled(),
            final(self).is_completed() == old(self).is_completed(),
            final(self).output() == old(self).output(),
    {
        if self.scheduled {
            return None;
        }
        self.scheduled = true;
        if self.completed {
            return None;
        }
        if increment {
            self.increment_ref();
        }
        Some(Runnable { _private: () })
    }

    /// A waker asks for the task to run again: the reschedule bit is set.
    /// The task handle's waker is then to be woken.
    pub fn wake_by_ref(&mut self)
        ensures
            final(self).wf() == old(self).wf(),
            final(self).refcount() == with_needs_schedule(old(self).refcount()),
            final(self).is_cancelled() == old(self).is_cancelled(),
            final(self).is_scheduled() == old(self).is_scheduled(),
            final(self).is_completed() == old(self).is_completed(),
            final(self).output() == old(self).output(),
    {
        self.refcount = set_needs_schedule(self.refcount);
    }

    /// A waker is used up: as `wake_by_ref`, then its reference is dropped.
    /// Returns whether the task is to be freed.
    pub fn wake(&mut self) -> (destroy: bool)
        ensures
            destroy == (references(old(self).refcount()) == 1),
            final(self).wf() == old(self).wf(),
            final(self).refcount() == after_drop_ref(with_needs_schedule(old(self).refcount())),
            final(self).is_cancelled() == old(self).is_cancelled(),
            final(self).is_scheduled() == old(self).is_scheduled(),
            final(self).is_completed() == old(self).is_completed(),
            final(self).output() == old(self).output(),
    {
        self.wake_by_ref();
        self.decrement_ref()
    }

    /// Polls the task from its `Task` handle (after registering the
    /// handle's waker). A cancelled task that is not scheduled is over. A
    /// completed one hands out its output once. Otherwise a set reschedule
    /// bit is cleared and the task scheduled.
    pub fn poll_task(&mut self) -> (r: TaskPoll<T>)
        requires
            old(self).wf(),
            old(self).refcount() <= isize::MAX,
        ensures
            final(self).wf(),
            final(self).is_cancelled() == old(self).is_cancelled(),
            final(self).is_completed() == old(self).is_completed(),
            old(self).is_cancelled() && !old(self).is_scheduled() ==> {
                &&& r == TaskPoll::<T>::Cancelled
                &&& final(self).refcount() == old(self).refcount()
                &&& final(self).is_scheduled() == old(self).is_scheduled()
                &&& final(self).output() == old(self).output()
            },
            !(old(self).is_cancelled() && !old(self).is_scheduled()) && old(self).output() is Some ==> {
                &&& r == TaskPoll::Output(old(self).output()->0)
                &&& final(self).output() is None
                &&& final(self).refcount() == old(self).refcount()
                &&& final(self).is_scheduled() == old(self).is_scheduled()
            },
            !(old(self).is_cancelled() && !old(self).is_scheduled()) && old(self).output() is None ==> {
                let resched = needs_schedule(old(self).refcount());
                let call = resched && !old(self).is_scheduled() && !old(self).is_completed();
                &&& r matches TaskPoll::Pending(run) && (run is Some <==> call)
                &&& final(self).output() is None
                &&& final(self).is_scheduled() == (old(self).is_scheduled() || resched)
                &&& final(self).refcount() == if !resched {
                    old(self).refcount()
                } else if call {
                    (without_needs_schedule(old(self).refcount()) + REFCOUNT_ONE) as usize
                } else {
                    without_needs_schedule(old(self).refcount())
                }
            },
    {
        if self.cancelled && !self.scheduled {
            return TaskPoll::Cancelled;
        }
        if self.completed {
            match self.output.take() {
                Some(out) => {
                    return TaskPoll::Output(out);
                },
                None => {},
            }
        }
        let word = self.refcount;
        if has_needs_schedule(word) {
            self.refcount = clear_needs_schedule(word);
            let run = self.schedule_inner(true);
            TaskPoll::Pending(run)
        } else {
            TaskPoll::Pending(None)
        }
    }

    /// A run starts: the runnable is used up and the task is no longer
    /// scheduled. The caller then polls the future once.
    pub fn start_run(&mut self, runnable: Runnable)
        requires
            !old(self).is_completed(),
        ensures
            final(self).wf() == old(self).wf(),
            !final(self).is_scheduled(),
            final(self).refcount() == old(self).refcount(),
            final(self).is_cancelled() == old(self).is_cancelled(),
            final(self).is_completed() == old(self).is_completed(),
            final(self).output() == old(self).output(),
    {
        self.scheduled = false;
    }

    /// A run ends with the future's poll result (`Some` when it finished). A
    /// finished task completes and keeps the output, and the task handle's
    /// waker is to be woken. Then the runnable's reference is dropped.
    /// Returns whether the task asked to run again, and the release.
    pub fn finish_run(&mut self, result: Option<T>) -> (res: (bool, Release))
        requires
            old(self).wf(),
        ensures
            final(self).wf(),
            res.0 == needs_schedule(old(self).refcount()),
            res.1 == (Release { schedule: None, destroy: references(old(self).refcount()) == 1 }),
            final(self).refcount() == after_drop_ref(old(self).refcount()),
            final(self).is_cancelled() == old(self).is_cancelled(),
            final(self).is_scheduled() == old(self).is_scheduled(),
            result is Some ==> final(self).is_completed() && final(self).output() == result,
            result is None ==> final(self).is_completed() == old(self).is_completed()
                && final(self).output() == old(self).output(),
    {
        match result {
            Some(out) => {
                self.completed = true;
                self.output = Some(out);
            },
            None => {},
        }
        let again = has_needs_schedule(self.refcount);
        let destroy = self.decrement_ref();
        (again, Release { schedule: None, destroy })
    }

    /// The runnable is handed to the scheduler: the task is scheduled (with
    /// a new runnable) unless it is scheduled already or completed, then the
    /// old runnable's reference is dropped.
    pub fn schedule_runnable(&mut self, runnable: Runnable) -> (release: Release)
        requires
            old(self).refcount() <= isize::MAX,
        ensures
            final(self).wf() == old(self).wf(),
            release.schedule is Some <==> (!old(self).is_scheduled() && !old(self).is_completed()),
            final(self).is_scheduled(),
            ({
                let word = if release.schedule is Some {
                    (old(self).refcount() + REFCOUNT_ONE) as usize
                } else {
                    old(self).refcount()
                };
                &&& release.destroy == (references(word) == 1)
                &&& final(self).refcount() == after_drop_ref(word)
            }),
            final(self).is_cancelled() == old(self).is_cancelled(),
            final(self).is_completed() == old(self).is_completed(),
            final(self).output() == old(self).output(),
    {
        let schedule = self.schedule_inner(true);
        let destroy = self.decrement_ref();
        Release { schedule, destroy }
    }

    /// A runnable is dropped without running: the task is cancelled and the
    /// reference dropped. Returns whether the task is to be freed.
    pub fn drop_runnable(&mut self, runnable: Runnable) -> (destroy: bool)
        ensures
            destroy == (references(old(self).refcount()) == 1),
            final(self).wf() == old(self).wf(),
            final(self).is_cancelled(),
            final(self).refcount() == after_drop_ref(old(self).refcount()),
            final(self).is_scheduled() == old(self).is_scheduled(),
            final(self).is_completed() == old(self).is_completed(),
            final(self).output() == old(self).output(),
    {
        self.cancelled = true;
        self.decrement_ref()
    }

    /// A new waker for the task: one more reference.
    pub fn waker(&mut self, runnable: &Runnable)
        requires
            old(self).refcount() <= isize::MAX,
        ensures
            final(self).wf() == old(self).wf(),
            final(self).refcount() == old(self).refcount() + REFCOUNT_ONE,
            final(self).is_cancelled() == old(self).is_cancelled(),
            final(self).is_scheduled() == old(self).is_scheduled(),
            final(self).is_completed() == old(self).is_completed(),
            final(self).output() == old(self).output(),
    {
        self.increment_ref();
    }
}

impl Detached {
    /// Does this handle still hold its reference?
    pub closed spec fn is_attached(&self) -> bool {
        self.attached
    }

    /// Cancels the task. The first cancel of a task that is not scheduled
    /// schedules it one last time; returns the runnable to call the
    /// scheduler with, if any.
    pub fn set_cancelled<T>(&mut self, header: &mut TaskHeader<T>) -> (run: Option<Runnable>)
        requires
            old(header).refcount() <= isize::MAX,
        ensures
            final(header).wf() == old(header).wf(),
            final(self).is_attached() == old(self).is_attached(),
            !old(self).is_attached() ==> {
                &&& run is None
                &&& *final(header) == *old(header)
            },
            old(self).is_attached() ==> {
                &&& final(header).is_cancelled()
                &&& (run is Some <==> (!old(header).is_cancelled() && !old(header).is_scheduled()
                    && !old(header).is_completed()))
                &&& final(header).is_scheduled() == (old(header).is_scheduled()
                    || !old(header).is_cancelled())
                &&& final(header).refcount() == if run is Some {
                    (old(header).refcount() + REFCOUNT_ONE) as usize
                } else {
                    old(header).refcount()
                }
                &&& final(header).is_completed() == old(header).is_completed()
                &&& final(header).output() == old(header).output()
            },
    {
        if !self.attached {
            return None;
        }
        if header.cancelled {
            return None;
        }
        header.cancelled = true;
        if !header.scheduled {
            header.schedule_inner(true)
        } else {
            None
        }
    }

    /// Polls a detached task: as the task handle's poll, but without taking
    /// the output. Requires the handle to be attached.
    pub fn poll<T>(&self, header: &mut TaskHeader<T>) -> (r: TaskPoll<()>)
        requires
            self.is_attached(),
            old(header).refcount() <= isize::MAX,
        ensures
            final(header).wf() == old(header).wf(),
            final(header).is_cancelled() == old(header).is_cancelled(),
            final(header).is_completed() == old(header).is_completed(),
            final(header).output() == old(header).output(),
            old(header).is_cancelled() && !old(header).is_scheduled() ==> {
                &&& r == TaskPoll::<()>::Cancelled
                &&& *final(header) == *old(header)
            },
            !(old(header).is_cancelled() && !old(header).is_scheduled()) ==> {
                let resched = needs_schedule(old(header).refcount());
                let call = resched && !old(header).is_scheduled() && !old(header).is_completed();
                &&& r matches TaskPoll::Pending(run) && (run is Some <==> call)
                &&& final(header).is_scheduled() == (old(header).is_scheduled() || resched)
                &&& final(header).refcount() == if !resched {
                    old(header).refcount()
                } else if call {
                    (without_needs_schedule(old(header).refcount()) + REFCOUNT_ONE) as usize
                } else {
                    without_needs_schedule(old(header).refcount())
                }
            },
    {
        if header.cancelled && !header.scheduled {
            return TaskPoll::Cancelled;
        }
        let word = header.refcount;
        if has_needs_schedule(word) {
            header.refcount = clear_needs_schedule(word);
            let run = header.schedule_inner(true);
            TaskPoll::Pending(run)
        } else {
            TaskPoll::Pending(None)
        }
    }

    /// Drops the handle: the task is cancelled (see `set_cancelled`), then
    /// the handle's reference is dropped.
    pub fn drop_handle<T>(self, header: &mut TaskHeader<T>) -> (release: Release)
        requires
            old(header).refcount() < isize::MAX,
        ensures
            final(header).wf() == old(header).wf(),
            !self.is_attached() ==> release == (Release { schedule: None, destroy: false })
                && *final(header) == *old(header),
            self.is_attached() ==> {
                let call = !old(header).is_cancelled() && !old(header).is_scheduled()
                    && !old(header).is_completed();
                let word = if call {
                    (old(header).refcount() + REFCOUNT_ONE) as usize
                } else {
                    old(header).refcount()
                };
                &&& (release.schedule is Some <==> call)
                &&& release.destroy == (references(word) == 1)
                &&& final(header).refcount() == after_drop_ref(word)
                &&& final(header).is_cancelled()
                &&& final(header).is_completed() == old(header).is_completed()
                &&& final(header).output() == old(header).output()
            },
    {
        let mut this = self;
        let schedule = this.set_cancelled(header);
        if this.attached {
            this.attached = false;
            let destroy = header.decrement_ref();
            Release { schedule, destroy }
        } else {
            Release { schedule, destroy: false }
        }
    }
}

impl<T> Task<T> {
    /// Does the handle hold its reference?
    pub closed spec fn is_attached(&self) -> bool {
        self.inner.is_attached()
    }

    /// A task handle whose await gives `None` when the task was cancelled.
    pub fn fallible(self) -> (task: FallibleTask<T>)
        ensures
            task.0 == self,
    {
        FallibleTask(self)
    }

    /// Detaches the task: it runs on, with nobody awaiting its output.
    pub fn detach(self) -> (detached: Detached)
        ensures
            detached.is_attached() == self.is_attached(),
    {
        self.inner
    }

    /// Cancels the task (see `Detached::set_cancelled`).
    pub fn set_cancelled(&mut self, header: &mut TaskHeader<T>) -> (run: Option<Runnable>)
        requires
            old(header).refcount() <= isize::MAX,
        ensures
            final(self).is_attached() == old(self).is_attached(),
            !old(self).is_attached() ==> run is None && *final(header) == *old(header),
            old(self).is_attached() ==> {
                &&& final(header).is_cancelled()
                &&& (run is Some <==> (!old(header).is_cancelled() && !old(header).is_scheduled()
                    && !old(header).is_completed()))
                &&& final(header).is_completed() == old(header).is_completed()
                &&& final(header).output() == old(header).output()
            },
    {
        self.inner.set_cancelled(header)
    }
}

} // verus!
