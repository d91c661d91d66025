use std::task::Waker;
use unsend::executor::{
    after_shared_push, empty_given_shared, is_empty, pick_task, runs_locally, schedule,
    schedule_shared, tick_reported, Shared, ThreadState, TickSource,
};

#[test]
fn local_schedule_uses_the_thread_queue() {
    assert!(runs_locally(Some(3), Some(3)));
    assert!(!runs_locally(Some(3), Some(4)));
    assert!(!runs_locally(None, None));

    let shared = Shared::<u32>::new(Some(3));
    let mut thread = ThreadState::<u32>::new();
    let (wakers, leaked) = schedule(&shared, &mut thread, Some(3), 10);
    assert!(wakers.is_empty());
    assert!(leaked.is_none());
    let (picked, _) = pick_task(&shared, &mut thread);
    assert_eq!(picked, Some((10, TickSource::Local)));
    assert!(tick_reported(&Some(TickSource::Local)));
    assert!(!tick_reported(&None));
}

#[test]
fn foreign_schedule_uses_the_shared_queue() {
    let shared = Shared::<u32>::new(Some(3));
    let mut thread = ThreadState::<u32>::new();
    let (_, leaked) = schedule(&shared, &mut thread, Some(7), 11);
    assert!(leaked.is_none());
    assert!(thread.queue_is_empty());
    let (picked, _) = pick_task(&shared, &mut thread);
    assert_eq!(picked, Some((11, TickSource::Shared)));
    assert!(tick_reported(&Some(TickSource::Shared)));
    let (picked, _) = pick_task(&shared, &mut thread);
    assert_eq!(picked, None);
}

#[test]
fn running_tasks_are_kept_by_key() {
    let mut thread = ThreadState::<u32>::new();
    let key = thread.vacant_key();
    let inserted = thread.insert_active(Waker::noop().clone());
    assert_eq!(key, inserted);
    assert!(thread.remove_active(key));
    assert!(!thread.remove_active(key));
}

#[test]
fn a_refused_push_hands_the_task_back() {
    let shared = Shared::<u32>::new(Some(3));
    assert_eq!(after_shared_push(&shared, Err(5)), Some(5));
    assert_eq!(after_shared_push(&shared, Ok(())), None);
    shared.task_queue.close();
    assert_eq!(schedule_shared(&shared, 6), Some(6));
}

#[test]
fn emptiness_needs_both_queues_empty() {
    let shared = Shared::<u32>::new(Some(3));
    let mut thread = ThreadState::<u32>::new();
    assert!(is_empty(&shared, &thread));
    let (_, leaked) = schedule(&shared, &mut thread, Some(3), 1);
    assert!(leaked.is_none());
    assert!(!is_empty(&shared, &thread));
    assert!(!empty_given_shared(&thread, true));

    let other = Shared::<u32>::new(Some(3));
    let idle = ThreadState::<u32>::new();
    assert_eq!(schedule_shared(&other, 2), None);
    assert!(!is_empty(&other, &idle));
    assert!(empty_given_shared(&idle, true));
    assert!(!empty_given_shared(&idle, false));
}
