use unsend::channel::{channel, Channel, ChannelClosed, TryRecvError};
use unsend::event::Poll;

/// Receives once, as a receive that is ready at its first poll does.
fn recv_now(chan: &mut Channel<i32, u32>) -> Result<i32, ChannelClosed> {
    let mut recv = chan.recv();
    match chan.poll_recv(&mut recv, 0) {
        Poll::Ready(result) => {
            chan.drop_recv(recv);
            result
        }
        Poll::Pending => panic!("the receive would wait"),
    }
}

#[test]
fn test_channel() {
    let mut chan = channel::<i32, u32>();

    chan.send(1).0.unwrap();
    chan.send(2).0.unwrap();
    chan.send(3).0.unwrap();

    assert_eq!(chan.try_recv().unwrap(), 1);
    assert_eq!(recv_now(&mut chan).unwrap(), 2);
    assert_eq!(chan.try_recv().unwrap(), 3);
    assert!(chan.try_recv().is_err());

    chan.drop_sender();

    assert!(recv_now(&mut chan).is_err());
}

#[test]
fn test_channel_clone() {
    let mut chan = channel::<i32, u32>();

    chan.clone_sender();

    chan.send(1).0.unwrap();
    chan.send(2).0.unwrap();

    assert_eq!(chan.try_recv().unwrap(), 1);
    assert_eq!(chan.try_recv().unwrap(), 2);
    assert!(chan.try_recv().is_err());

    chan.drop_sender();
    chan.drop_sender();

    assert!(recv_now(&mut chan).is_err());
}

#[test]
fn test_channel_recv_clone() {
    let mut chan = channel::<i32, u32>();

    chan.clone_receiver();

    chan.send(1).0.unwrap();
    chan.send(2).0.unwrap();

    assert_eq!(chan.try_recv().unwrap(), 1);
    assert_eq!(chan.try_recv().unwrap(), 2);
    assert!(chan.try_recv().is_err());
    assert!(chan.try_recv().is_err());

    chan.drop_receiver();
    chan.drop_receiver();

    assert!(chan.send(3).0.is_err());
}

#[test]
fn test_send_direct() {
    let mut chan = channel::<i32, u32>();

    // Start receiving.
    let mut recv = chan.recv();

    // Poll once.
    assert!(matches!(chan.poll_recv(&mut recv, 7), Poll::Pending));

    // Send an item: it goes to the waiting receive, whose waker is returned.
    let (sent, woken) = chan.send(1);
    sent.unwrap();
    assert_eq!(woken, vec![7]);

    // Poll again.
    assert!(matches!(chan.poll_recv(&mut recv, 7), Poll::Ready(Ok(1))));
}

#[test]
fn test_recv_and_drop() {
    let mut chan = channel::<i32, u32>();

    // Start receiving.
    let mut recv = chan.recv();
    chan.clone_receiver();
    let mut recv2 = chan.recv();

    // Poll once.
    assert!(matches!(chan.poll_recv(&mut recv, 1), Poll::Pending));
    assert!(matches!(chan.poll_recv(&mut recv2, 2), Poll::Pending));

    // Drop the sender.
    let woken = chan.drop_sender();
    assert_eq!(woken, vec![1, 2]);

    // Poll again.
    assert!(matches!(chan.poll_recv(&mut recv, 1), Poll::Ready(Err(ChannelClosed))));
    assert!(matches!(chan.poll_recv(&mut recv2, 2), Poll::Ready(Err(ChannelClosed))));
}

#[test]
fn test_channel_drop() {
    let mut chan = channel::<i32, u32>();

    chan.send(1).0.unwrap();
    chan.send(2).0.unwrap();
    chan.send(3).0.unwrap();

    chan.drop_sender();

    assert_eq!(chan.try_recv().unwrap(), 1);
    assert_eq!(chan.try_recv().unwrap(), 2);
    assert_eq!(chan.try_recv().unwrap(), 3);
    assert!(chan.try_recv().is_err());

    assert!(recv_now(&mut chan).is_err());
}

#[test]
fn try_recv_tells_empty_from_closed() {
    let mut chan = channel::<i32, u32>();
    assert_eq!(chan.try_recv(), Err(TryRecvError::Empty));
    chan.drop_receiver();
    assert_eq!(chan.try_recv(), Err(TryRecvError::Closed));
}

#[test]
fn send_to_a_notified_listener_queues_the_item() {
    let mut chan = channel::<i32, u32>();
    let mut recv = chan.recv();
    assert!(matches!(chan.poll_recv(&mut recv, 0), Poll::Pending));
    // The first item goes to the listener, the second waits in the queue.
    chan.send(10).0.unwrap();
    chan.send(20).0.unwrap();
    assert!(matches!(chan.poll_recv(&mut recv, 0), Poll::Ready(Ok(10))));
    assert_eq!(chan.try_recv().unwrap(), 20);
}
