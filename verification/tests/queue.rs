use unsend::queue::Queue;

#[test]
fn queue_is_first_in_first_out() {
    let mut queue = Queue::new(2);
    assert!(queue.capacity() >= 2);
    assert!(queue.is_empty());
    queue.push(1);
    queue.push(2);
    queue.push(3);
    assert_eq!(queue.len(), 3);
    assert_eq!(queue.pop(), Some(1));
    assert_eq!(queue.pop(), Some(2));
    queue.clear();
    assert_eq!(queue.pop(), None);
    let empty: Queue<u8> = Queue::default();
    assert_eq!(empty.len(), 0);
}
