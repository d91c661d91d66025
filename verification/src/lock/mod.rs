//! Locks for tasks: a mutex, a read/write lock, a semaphore, a barrier and a
//! cell that is written once. Each wait is a listener on an event that the
//! releasing side notifies.

pub mod barrier;
pub mod mutex;
pub mod once_cell;
pub mod rwlock;
pub mod semaphore;

pub use barrier::{Barrier, BarrierWaitResult};
pub use mutex::{Mutex, MutexGuard};
pub use once_cell::OnceCell;
pub use rwlock::{RwLock, RwLockReadGuard, RwLockWriteGuard};
pub use semaphore::{Semaphore, SemaphoreGuard};
