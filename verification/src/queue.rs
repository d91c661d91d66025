//! A first-in first-out queue.

use std::collections::VecDeque;
use vstd::prelude::*;

verus! {

/// The number of items that `deque` can hold without growing its buffer.
/// The standard library documents this as at least its length.
#[verifier::external_body]
fn deque_capacity<T>(deque: &VecDeque<T>) -> (capacity: usize)
    ensures
        capacity >= deque@.len(),
{
    deque.capacity()
}

/// A first-in first-out queue.
pub struct Queue<T> {
    queue: VecDeque<T>,
}

impl<T> View for Queue<T> {
    type V = Seq<T>;

    closed spec fn view(&self) -> Seq<T> {
        self.queue@
    }
}

impl<T> Queue<T> {
    /// Creates an empty queue with room for at least `capacity` items.
    pub fn new(capacity: usize) -> (queue: Self)
        ensures
            queue@ == Seq::<T>::empty(),
    {
        Queue { queue: VecDeque::with_capacity(capacity) }
    }

    /// The number of items the queue can hold before it grows.
    pub fn capacity(&self) -> (capacity: usize)
        ensures
            capacity >= self@.len(),
    {
        deque_capacity(&self.queue)
    }

    /// The number of items in the queue.
    pub fn len(&self) -> (len: usize)
        ensures
            len == self@.len(),
    {
        self.queue.len()
    }

    /// Is the queue empty?
    pub fn is_empty(&self) -> (empty: bool)
        ensures
            empty == (self@.len() == 0),
    {
        self.queue.len() == 0
    }

    /// Puts an item at the back of the queue.
    pub fn push(&mut self, item: T)
        ensures
            final(self)@ == old(self)@.push(item),
    {
        self.queue.push_back(item);
    }

    /// Takes the item at the front of the queue, if there is one.
    pub fn pop(&mut self) -> (item: Option<T>)
        ensures
            old(self)@.len() == 0 ==> item is None && final(self)@ == old(self)@,
            old(self)@.len() > 0 ==> item == Some(old(self)@[0]) && final(self)@ == old(self)@.drop_first(),
    {
        self.queue.pop_front()
    }

    /// Removes every item from the queue.
    pub fn clear(&mut self)
        ensures
            final(self)@ == Seq::<T>::empty(),
    {
        self.queue.clear();
    }
}

impl<T> Default for Queue<T> {
    fn default() -> (queue: Self)
        ensures
            queue@ == Seq::<T>::empty(),
    {
        Queue::new(0)
    }
}

} // verus!
