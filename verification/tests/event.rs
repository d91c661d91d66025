use unsend::event::{Event, EventListener, Poll};

fn is_notified(event: &mut Event<(), u32>, listener: &EventListener) -> bool {
    matches!(event.poll(listener, 0).0, Poll::Ready(()))
}

fn listen3(event: &mut Event<(), u32>) -> (EventListener, EventListener, EventListener) {
    let l1 = event.listen();
    let l2 = event.listen();
    let l3 = event.listen();
    (l1, l2, l3)
}

#[test]
fn notify() {
    let mut event = Event::<(), u32>::new();
    let (l1, l2, l3) = listen3(&mut event);

    assert!(!is_notified(&mut event, &l1));
    assert!(!is_notified(&mut event, &l2));
    assert!(!is_notified(&mut event, &l3));

    event.notify_tag(2, false, ());
    event.notify_tag(1, false, ());

    assert!(is_notified(&mut event, &l1));
    assert!(is_notified(&mut event, &l2));
    assert!(!is_notified(&mut event, &l3));
}

#[test]
fn notify_additional() {
    let mut event = Event::<(), u32>::new();
    let (l1, l2, l3) = listen3(&mut event);

    assert!(!is_notified(&mut event, &l1));
    assert!(!is_notified(&mut event, &l2));
    assert!(!is_notified(&mut event, &l3));

    event.notify_tag(1, true, ());
    event.notify_tag(1, false, ());
    event.notify_tag(1, true, ());

    assert!(is_notified(&mut event, &l1));
    assert!(is_notified(&mut event, &l2));
    assert!(!is_notified(&mut event, &l3));
}

#[test]
fn notify_rc() {
    let mut event = Event::<(), u32>::new();
    let l1 = event.listen();
    let l2 = event.listen();

    assert!(!is_notified(&mut event, &l1));
    assert!(!is_notified(&mut event, &l2));

    event.notify_tag(1, false, ());
    event.notify_tag(1, false, ());

    assert!(is_notified(&mut event, &l1));
    assert!(!is_notified(&mut event, &l2));

    event.notify_tag(1, false, ());

    assert!(is_notified(&mut event, &l2));
}

#[test]
fn notify_out_of_range() {
    let mut event = Event::<(), u32>::new();

    assert_eq!(event.notify_tag(1, true, ()).0, 0);

    let l1 = event.listen();
    let l2 = event.listen();

    assert!(!is_notified(&mut event, &l1));
    assert!(!is_notified(&mut event, &l2));

    assert_eq!(event.notify_tag(2, false, ()).0, 2);
    assert_eq!(event.notify_tag(1, false, ()).0, 0);
}

#[test]
fn change_waker() {
    let mut event = Event::<(), u32>::new();
    let l1 = event.listen();

    assert_eq!(event.poll(&l1, 1).0, Poll::Pending);
    // Change the waker.
    assert_eq!(event.poll(&l1, 2).0, Poll::Pending);

    // Notify the event: the second waker is the one woken.
    let (_, woken) = event.notify_tag(1, false, ());
    assert_eq!(woken, vec![2]);
}

#[test]
fn notify_one() {
    let mut event = Event::<(), u32>::new();
    let l1 = event.listen();
    let l2 = event.listen();

    assert!(!is_notified(&mut event, &l1));
    assert!(!is_notified(&mut event, &l2));

    event.notify_tag(1, false, ());
    assert!(is_notified(&mut event, &l1));
    assert!(!is_notified(&mut event, &l2));

    event.notify_tag(1, false, ());
    assert!(is_notified(&mut event, &l2));
}

#[test]
fn notify_all() {
    let mut event = Event::<(), u32>::new();
    let l1 = event.listen();
    let l2 = event.listen();

    assert!(!is_notified(&mut event, &l1));
    assert!(!is_notified(&mut event, &l2));

    event.notify_tag(usize::MAX, false, ());
    assert!(is_notified(&mut event, &l1));
    assert!(is_notified(&mut event, &l2));
}

#[test]
fn drop_notified() {
    let mut event = Event::<(), u32>::new();
    let (l1, l2, l3) = listen3(&mut event);

    assert!(!is_notified(&mut event, &l1));
    assert!(!is_notified(&mut event, &l2));
    assert!(!is_notified(&mut event, &l3));

    event.notify_tag(1, false, ());
    event.drop_listener(l1);

    assert!(is_notified(&mut event, &l2));
    assert!(!is_notified(&mut event, &l3));
}

#[test]
fn drop_notified2() {
    let mut event = Event::<(), u32>::new();
    let (l1, l2, l3) = listen3(&mut event);

    assert!(!is_notified(&mut event, &l1));
    assert!(!is_notified(&mut event, &l2));
    assert!(!is_notified(&mut event, &l3));

    event.notify_tag(2, false, ());
    event.drop_listener(l1);

    assert!(is_notified(&mut event, &l2));
    assert!(!is_notified(&mut event, &l3));
}

#[test]
fn drop_notified_additional() {
    let mut event = Event::<(), u32>::new();
    let (l1, l2, l3) = listen3(&mut event);
    let l4 = event.listen();

    assert!(!is_notified(&mut event, &l1));
    assert!(!is_notified(&mut event, &l2));
    assert!(!is_notified(&mut event, &l3));
    assert!(!is_notified(&mut event, &l4));

    event.notify_tag(1, true, ());
    event.notify_tag(2, false, ());

    event.drop_listener(l1);

    assert!(is_notified(&mut event, &l2));
    assert!(is_notified(&mut event, &l3));
    assert!(!is_notified(&mut event, &l4));
}

#[test]
fn drop_non_notified() {
    let mut event = Event::<(), u32>::new();
    let (l1, l2, l3) = listen3(&mut event);

    assert!(!is_notified(&mut event, &l1));
    assert!(!is_notified(&mut event, &l2));
    assert!(!is_notified(&mut event, &l3));

    event.notify_tag(1, false, ());
    event.drop_listener(l3);
    assert!(is_notified(&mut event, &l1));
    assert!(!is_notified(&mut event, &l2));
}

#[test]
fn notify_all_fair() {
    let mut event = Event::<(), u32>::new();
    let (l1, l2, l3) = listen3(&mut event);

    assert_eq!(event.poll(&l1, 1).0, Poll::Pending);
    assert_eq!(event.poll(&l2, 2).0, Poll::Pending);
    assert_eq!(event.poll(&l3, 3).0, Poll::Pending);

    let (_, woken) = event.notify_tag(usize::MAX, false, ());
    assert_eq!(woken, vec![1, 2, 3]);

    assert_eq!(event.poll(&l1, 1).0, Poll::Ready(()));
    assert_eq!(event.poll(&l2, 2).0, Poll::Ready(()));
    assert_eq!(event.poll(&l3, 3).0, Poll::Ready(()));
}

#[test]
fn notify_tagged() {
    let mut event = Event::<i32, u32>::new();
    let l1 = event.listen();
    let l2 = event.listen();

    // Should not be notified.
    assert_eq!(event.poll(&l1, 0).0, Poll::Pending);
    assert_eq!(event.poll(&l2, 0).0, Poll::Pending);

    // Notify with tags.
    event.notify_tag(1, false, 1);
    event.notify_tag(1, false, 2);

    // Should be notified.
    assert_eq!(event.poll(&l1, 0).0, Poll::Ready(1));
    assert_eq!(event.poll(&l2, 0).0, Poll::Pending);

    // Notify with tags.
    event.notify_tag(2, false, 13);

    // Should be notified.
    assert_eq!(event.poll(&l2, 0).0, Poll::Ready(13));
}

#[test]
fn notify_tagged_with() {
    let mut event = Event::<i32, u32>::new();
    let l1 = event.listen();
    let l2 = event.listen();

    // Should not be notified.
    assert_eq!(event.poll(&l1, 0).0, Poll::Pending);
    assert_eq!(event.poll(&l2, 0).0, Poll::Pending);

    // Notify with tags made one per listener reached.
    let n = event.reach(1, false);
    event.notify(1, false, vec![1; n]);
    let n = event.reach(1, false);
    event.notify(1, false, vec![2; n]);

    // Should be notified.
    assert_eq!(event.poll(&l1, 0).0, Poll::Ready(1));
    assert_eq!(event.poll(&l2, 0).0, Poll::Pending);

    // Notify with tags.
    let n = event.reach(2, false);
    event.notify(2, false, vec![13; n]);

    // Should be notified.
    assert_eq!(event.poll(&l2, 0).0, Poll::Ready(13));
}

#[test]
fn notify_leaves_unused_tags() {
    let mut event = Event::<i32, u32>::new();
    let l1 = event.listen();
    assert_eq!(event.poll(&l1, 7).0, Poll::Pending);
    let (n, woken, left) = event.notify(5, false, vec![10, 20, 30]);
    assert_eq!(n, 1);
    assert_eq!(woken, vec![7]);
    assert_eq!(left, vec![20, 30]);
    assert_eq!(event.notified_count(), 1);
    assert_eq!(event.poll(&l1, 7).0, Poll::Ready(10));
    assert_eq!(event.notified_count(), 0);
    assert_eq!(event.len(), 0);
}
