use unsend::event::Poll;
use unsend::oneshot::channel;

#[test]
fn oneshot_smoke() {
    // Send a value.
    let mut chan = channel::<i32, u32>();
    chan.send(42).0.unwrap();

    // Receive the value.
    assert_eq!(chan.poll_receiver(0), Poll::Ready(Some(42)));

    // Send and drop the receiver.
    let mut chan = channel::<i32, u32>();
    chan.drop_receiver();
    assert!(chan.send(36).0.is_err());

    // Send and drop the sender.
    let mut chan = channel::<i32, u32>();
    chan.drop_sender();
    assert_eq!(chan.poll_receiver(0), Poll::Ready(None));
}

#[test]
fn waiting_receiver_is_woken_by_the_send() {
    let mut chan = channel::<i32, u32>();
    assert_eq!(chan.poll_receiver(4), Poll::Pending);
    let (sent, woken) = chan.send(1);
    sent.unwrap();
    assert_eq!(woken, vec![4]);
    assert_eq!(chan.poll_receiver(5), Poll::Ready(Some(1)));
}

#[test]
fn dropped_sender_wakes_the_waiting_receiver() {
    let mut chan = channel::<i32, u32>();
    assert_eq!(chan.poll_receiver(4), Poll::Pending);
    assert_eq!(chan.drop_sender(), vec![4]);
    assert_eq!(chan.poll_receiver(4), Poll::Ready(None));
}
