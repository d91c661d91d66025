use unsend::task::{TaskHeader, TaskPoll};

#[test]
fn task_smoke() {
    // Spawn a task and hand its runnable to the scheduler.
    let (mut header, runnable, task) = TaskHeader::<i32>::spawn();
    let release = header.schedule_runnable(runnable);
    assert!(!release.destroy);
    let scheduled = release.schedule.expect("the scheduler is called");

    // The scheduler runs the runnable: the future finishes with 42.
    header.start_run(scheduled);
    let (again, release) = header.finish_run(Some(42));
    assert!(!again);
    assert!(release.schedule.is_none());

    // The task handle gets the output, once.
    assert_eq!(header.poll_task(), TaskPoll::Output(42));
    assert_eq!(header.poll_task(), TaskPoll::Pending(None));
    let _detached = task.detach();
}

#[test]
fn cancel_schedules_one_last_time() {
    let (mut header, _runnable, task) = TaskHeader::<i32>::spawn();
    let mut task = task;
    assert!(task.set_cancelled(&mut header).is_some());
    // The second cancel does nothing more.
    assert!(task.set_cancelled(&mut header).is_none());
    // Cancelled and scheduled: not over yet.
    assert_eq!(header.poll_task(), TaskPoll::Pending(None));
}

#[test]
fn cancelled_unscheduled_task_is_over() {
    let (mut header, runnable, task) = TaskHeader::<i32>::spawn();
    header.drop_runnable(runnable);
    let fallible = task.fallible();
    let _ = fallible.0;
    assert_eq!(header.poll_task(), TaskPoll::Cancelled);
}

#[test]
fn wake_asks_for_a_new_schedule() {
    let (mut header, _runnable, _task) = TaskHeader::<i32>::spawn();
    header.wake_by_ref();
    assert!(matches!(header.poll_task(), TaskPoll::Pending(Some(_))));
    // The bit was cleared and the task is scheduled now.
    assert_eq!(header.poll_task(), TaskPoll::Pending(None));
}

#[test]
fn completed_task_is_never_scheduled_again() {
    let (mut header, runnable, _task) = TaskHeader::<i32>::spawn();
    header.start_run(runnable);
    header.finish_run(Some(1));
    assert!(header.schedule_inner(true).is_none());
}

#[test]
fn dropping_the_last_reference_frees_the_task() {
    let (mut header, runnable, task) = TaskHeader::<i32>::spawn();
    header.start_run(runnable);
    let (_, release) = header.finish_run(Some(3));
    assert!(!release.destroy);
    let detached = task.detach();
    let release = detached.drop_handle(&mut header);
    assert!(release.schedule.is_none());
    // The handle held the last of the two references.
    assert!(release.destroy);
}

#[test]
fn a_run_reports_whether_its_waker_was_called() {
    // A run whose future never touches its waker does not ask to run again.
    let (mut header, runnable, _task) = TaskHeader::<i32>::spawn();
    header.start_run(runnable);
    let (again, release) = header.finish_run(None);
    assert!(!again);
    assert!(!release.destroy);

    // Making and dropping wakers leaves the reschedule bit alone.
    let (mut header, runnable, _task) = TaskHeader::<i32>::spawn();
    header.waker(&runnable);
    assert!(!header.decrement_ref());
    header.start_run(runnable);
    let (again, _) = header.finish_run(None);
    assert!(!again);

    // A waker called during the run asks for another run.
    let (mut header, runnable, _task) = TaskHeader::<i32>::spawn();
    header.waker(&runnable);
    header.start_run(runnable);
    assert!(!header.wake());
    let (again, _) = header.finish_run(None);
    assert!(again);
}
