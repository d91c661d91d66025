//! A runtime for tasks that never leave the thread that made them: events that
//! wake waiting listeners, channels, locks and the scheduling rules of a
//! single-threaded executor, each kept as a state machine whose transitions are
//! proved against their contracts.

pub mod channel;
pub mod event;
pub mod executor;
pub mod http;
pub mod lock;
pub mod mpmc;
pub mod notify;
pub mod once_cell;
pub mod oneshot;
pub mod queue;
pub mod recursive_mutex;
pub mod task;
