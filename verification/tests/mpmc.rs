use unsend::event::Poll;
use unsend::mpmc::{channel, Channel, ChannelClosed, TryRecvError};

/// Receives once, as a receive that is ready at its first poll does.
fn recv_now(chan: &mut Channel<i32, u32>) -> Result<i32, ChannelClosed> {
    let mut recv = chan.recv();
    match chan.poll_recv(&mut recv, 0) {
        Poll::Ready(result) => {
            chan.drop_recv(recv);
            result
        }
        Poll::Pending => panic!("the receive would wait"),
    }
}

#[test]
fn send_recv() {
    let mut chan = channel::<i32, u32>(1);

    chan.send(1).0.unwrap();
    assert_eq!(chan.try_recv().unwrap(), 1);
}

#[test]
fn send_recv_many() {
    let mut chan = channel::<i32, u32>(1);

    for i in 0..100 {
        chan.send(i).0.unwrap();
        assert_eq!(recv_now(&mut chan).unwrap(), i);
    }
}

#[test]
fn send_or_recv() {
    let mut chan = channel::<i32, u32>(1);

    // The receive is polled first and waits; the send then completes, and
    // with it the race, so the receive is dropped.
    let mut recv = chan.recv();
    assert!(matches!(chan.poll_recv(&mut recv, 0), Poll::Pending));
    chan.send(1).0.unwrap();
    chan.drop_recv(recv);
    assert_eq!(chan.len(), 1);
}

#[test]
fn recv_closed() {
    let mut chan = channel::<i32, u32>(1);

    chan.send(1).0.unwrap();
    chan.drop_sender();
    assert_eq!(recv_now(&mut chan).unwrap(), 1);
    assert!(recv_now(&mut chan).is_err());
}

#[test]
fn send_closed() {
    let mut chan = channel::<i32, u32>(1);

    chan.drop_receiver();
    assert!(chan.send(1).0.is_err());
}

#[test]
fn try_recv_reports_closed_before_queued_values() {
    let mut chan = channel::<i32, u32>(4);
    chan.send(1).0.unwrap();
    assert!(chan.capacity() >= 1);
    assert_eq!(chan.sender_count(), 1);
    assert_eq!(chan.receiver_count(), 1);
    chan.drop_sender();
    assert_eq!(chan.try_recv(), Err(TryRecvError::Closed));
    assert!(!chan.is_empty());
}

#[test]
fn last_receiver_empties_the_queue() {
    let mut chan = channel::<i32, u32>(4);
    chan.clone_receiver();
    chan.send(1).0.unwrap();
    chan.drop_receiver();
    assert_eq!(chan.len(), 1);
    chan.drop_receiver();
    assert!(chan.is_empty());
}

#[test]
fn waiting_receive_is_handed_the_value() {
    let mut chan = channel::<i32, u32>(1);
    let mut recv = chan.recv();
    // The first poll takes a listener; the second registers it.
    assert!(matches!(chan.poll_recv(&mut recv, 3), Poll::Pending));
    assert!(matches!(chan.poll_recv(&mut recv, 3), Poll::Pending));
    let (sent, woken) = chan.send(8);
    sent.unwrap();
    assert_eq!(woken, vec![3]);
    assert!(chan.is_empty());
    assert!(matches!(chan.poll_recv(&mut recv, 3), Poll::Ready(Ok(8))));
}
