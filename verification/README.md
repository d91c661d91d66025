# unsend

Async primitives for single-threaded executors: event listeners, channels,
locks, a oneshot, a task handle and a thread-local executor, with the state
machine behind each one verified by Verus.

## Layout

- `src/` — the verified library. Every primitive is a plain state machine
  whose operations take the current state and an event (a poll with a waker,
  a drop, a notification) and return the next state and the wakers to wake.
  - `event.rs`, `notify.rs`: listener lists with counted and tagged
    notifications.
  - `channel.rs`, `mpmc.rs`, `oneshot.rs`: unbounded and bounded channels and
    a oneshot.
  - `lock/`: mutex, read-write lock, semaphore, barrier and once cell;
    `recursive_mutex.rs`, `once_cell.rs`.
  - `task.rs`, `executor.rs`: task reference counting and scheduling, and the
    executor's run queues (through `slab`, `concurrent-queue` and
    `atomic-waker`).
  - `http.rs`: the request-head checks and responses of the example servers
    (through `httparse`).
  - `queue.rs`: the FIFO queue the channels are built on.
- `app/` — the futures, wakers, `RefCell`s and I/O around the library.
- `tests/` — tests run against the compiled library.
