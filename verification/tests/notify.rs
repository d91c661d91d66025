use unsend::event::Poll;
use unsend::notify::Notify;

#[test]
fn notify_smoke() {
    let mut notify = Notify::<i32, u32>::new();

    let listener = notify.listen();
    assert_eq!(notify.poll(&listener, 0).0, Poll::Pending);
    notify.notify(1, vec![42]);
    assert_eq!(notify.poll(&listener, 0).0, Poll::Ready(42));
}

#[test]
fn dropped_notified_listener_passes_its_result_on() {
    let mut notify = Notify::<i32, u32>::new();
    let a = notify.listen();
    let b = notify.listen();
    assert_eq!(notify.poll(&a, 1).0, Poll::Pending);
    assert_eq!(notify.poll(&b, 2).0, Poll::Pending);
    let (n, woken, left) = notify.notify(1, vec![5, 6]);
    assert_eq!((n, woken, left), (1, vec![1], vec![6]));
    assert_eq!(notify.drop_listener(a), vec![2]);
    assert_eq!(notify.poll(&b, 2).0, Poll::Ready(5));
}

#[test]
fn taken_result_leaves_a_hole_that_counts_as_notified() {
    let mut notify = Notify::<i32, u32>::new();
    let a = notify.listen();
    let b = notify.listen();
    assert_eq!(notify.poll(&a, 1).0, Poll::Pending);
    assert_eq!(notify.poll(&b, 2).0, Poll::Pending);
    notify.notify_additional(1, vec![9]);
    assert_eq!(notify.poll(&a, 1).0, Poll::Ready(9));
    assert_eq!(notify.notified_count(), 1);
    assert_eq!(notify.len(), 2);
    // A plain notification of one: one already counts as notified.
    assert_eq!(notify.notify(1, vec![3]).0, 0);
    notify.drop_listener(a);
    assert_eq!(notify.notified_count(), 0);
    assert_eq!(notify.notify(1, vec![3]).0, 1);
}
