use unsend::event::Wait;
use unsend::lock::barrier::BarrierWait;
use unsend::lock::once_cell::InitStep;
use unsend::lock::{Barrier, Mutex, MutexGuard, OnceCell, RwLock, Semaphore};

/// Locks a mutex whose lock is ready at the first poll, as `lock().await` does then.
fn lock_now(mutex: &mut Mutex<i32, u32>) -> MutexGuard {
    let mut wait = mutex.lock();
    let guard = mutex.poll_lock(&mut wait, 0).expect("the lock would wait");
    mutex.drop_lock(wait);
    guard
}

/// Polls a lock once and drops it, as `poll_once(mutex.lock())` does.
fn lock_once(mutex: &mut Mutex<i32, u32>) -> Option<MutexGuard> {
    let mut wait = mutex.lock();
    let guard = mutex.poll_lock(&mut wait, 0);
    mutex.drop_lock(wait);
    guard
}

#[test]
fn test_mutex() {
    let mut mutex = Mutex::<i32, u32>::new(0);
    let guard = lock_now(&mut mutex);
    *mutex.get_guarded_mut(&guard) += 1;
    assert_eq!(*mutex.get(&guard), 1);
    mutex.unlock(guard);
    let guard = lock_now(&mut mutex);

    // If we try to lock the mutex again, it will block.
    assert!(mutex.try_lock().is_none());
    assert!(lock_once(&mut mutex).is_none());

    assert_eq!(*mutex.get(&guard), 1);
}

#[test]
fn test_mutex_try_lock() {
    let mut mutex = Mutex::<i32, u32>::new(0);
    let guard = mutex.try_lock().unwrap();
    *mutex.get_guarded_mut(&guard) += 1;
    assert_eq!(*mutex.get(&guard), 1);
    mutex.unlock(guard);
    let guard = mutex.try_lock().unwrap();
    assert_eq!(*mutex.get(&guard), 1);
}

#[test]
fn test_mutex_try_lock_fail() {
    let mut mutex = Mutex::<i32, u32>::new(0);
    let guard = lock_now(&mut mutex);
    *mutex.get_guarded_mut(&guard) += 1;
    assert_eq!(*mutex.get(&guard), 1);
    mutex.unlock(guard);
    let guard = lock_now(&mut mutex);
    assert_eq!(*mutex.get(&guard), 1);
}

#[test]
fn test_mutex_lock_after_drop() {
    let mut mutex = Mutex::<i32, u32>::new(0);
    let guard = lock_now(&mut mutex);
    *mutex.get_guarded_mut(&guard) += 1;
    assert_eq!(*mutex.get(&guard), 1);
    mutex.unlock(guard);
    let guard = lock_now(&mut mutex);
    assert_eq!(*mutex.get(&guard), 1);
}

#[test]
fn test_mutex_lock_after_drop_try_lock() {
    let mut mutex = Mutex::<i32, u32>::new(0);
    let guard = mutex.try_lock().unwrap();
    *mutex.get_guarded_mut(&guard) += 1;
    assert_eq!(*mutex.get(&guard), 1);
    mutex.unlock(guard);
    let guard = mutex.try_lock().unwrap();
    assert_eq!(*mutex.get(&guard), 1);
}

#[test]
fn mutex_unlock_wakes_the_waiting_lock() {
    let mut mutex = Mutex::<i32, u32>::new(5);
    let guard = mutex.try_lock().unwrap();
    let mut wait = mutex.lock();
    assert!(mutex.poll_lock(&mut wait, 9).is_none());
    let woken = mutex.unlock(guard);
    assert_eq!(woken, vec![9]);
    let guard = mutex.poll_lock(&mut wait, 9).unwrap();
    assert_eq!(*mutex.get(&guard), 5);
    assert_eq!(mutex.into_inner(), 5);
}

fn read_now(lock: &mut RwLock<i32, u32>) -> unsend::lock::RwLockReadGuard {
    let mut wait = lock.read();
    let guard = lock.poll_read(&mut wait, 0).expect("the read would wait");
    lock.drop_read(wait);
    guard
}

fn write_now(lock: &mut RwLock<i32, u32>) -> unsend::lock::RwLockWriteGuard {
    let mut wait = lock.write();
    let guard = lock.poll_write(&mut wait, 0).expect("the write would wait");
    lock.drop_write(wait);
    guard
}

#[test]
fn test_rwlock() {
    let mut rwlock = RwLock::<i32, u32>::new(0);
    let guard = write_now(&mut rwlock);
    *rwlock.get_guarded_mut(&guard) += 1;
    assert_eq!(*rwlock.get(), 1);
    rwlock.release_write(guard);
    let guard = read_now(&mut rwlock);
    assert_eq!(*rwlock.get(), 1);
    rwlock.release_read(guard);
    let guard = write_now(&mut rwlock);
    assert_eq!(*rwlock.get(), 1);
    rwlock.release_write(guard);
}

#[test]
fn test_rwlock_try_read() {
    let mut rwlock = RwLock::<i32, u32>::new(0);
    let guard = write_now(&mut rwlock);
    *rwlock.get_guarded_mut(&guard) += 1;
    assert_eq!(*rwlock.get(), 1);
    rwlock.release_write(guard);
    let guard = rwlock.try_read().unwrap();
    assert_eq!(*rwlock.get(), 1);
    rwlock.release_read(guard);
    let guard = write_now(&mut rwlock);
    assert_eq!(*rwlock.get(), 1);
    rwlock.release_write(guard);
}

#[test]
fn test_rwlock_try_write() {
    let mut rwlock = RwLock::<i32, u32>::new(0);
    let guard = write_now(&mut rwlock);
    *rwlock.get_guarded_mut(&guard) += 1;
    assert_eq!(*rwlock.get(), 1);
    rwlock.release_write(guard);
    let guard = read_now(&mut rwlock);
    assert_eq!(*rwlock.get(), 1);
    rwlock.release_read(guard);
    let guard = rwlock.try_write().unwrap();
    assert_eq!(*rwlock.get(), 1);
    rwlock.release_write(guard);
}

#[test]
fn rwlock_readers_share_and_keep_writers_out() {
    let mut rwlock = RwLock::<i32, u32>::new(3);
    let r1 = rwlock.try_read().unwrap();
    let r2 = rwlock.try_read().unwrap();
    assert!(rwlock.try_write().is_none());
    let mut wait = rwlock.write();
    assert!(rwlock.poll_write(&mut wait, 4).is_none());
    assert!(rwlock.release_read(r1).is_empty());
    // The last reader leaving wakes the waiting writer.
    assert_eq!(rwlock.release_read(r2), vec![4]);
    let w = rwlock.poll_write(&mut wait, 4).unwrap();
    assert!(rwlock.try_read().is_none());
    rwlock.release_write(w);
    assert_eq!(rwlock.into_inner(), 3);
}

fn acquire_once(semaphore: &mut Semaphore<u32>) -> bool {
    let mut wait: Wait = semaphore.acquire();
    let got = semaphore.poll_acquire(&mut wait, 0);
    semaphore.drop_acquire(wait);
    got.is_some()
}

#[test]
fn test_semaphore() {
    let mut semaphore = Semaphore::<u32>::new(1);
    let mut wait = semaphore.acquire();
    let _guard = semaphore.poll_acquire(&mut wait, 0).unwrap();
    semaphore.drop_acquire(wait);

    // If we try to acquire the semaphore again, it will block.
    assert!(semaphore.try_acquire().is_none());
    assert!(!acquire_once(&mut semaphore));
}

#[test]
fn semaphore_release_gives_the_permit_back() {
    let mut semaphore = Semaphore::<u32>::new(2);
    let a = semaphore.try_acquire().unwrap();
    let _b = semaphore.try_acquire().unwrap();
    assert_eq!(semaphore.available(), 0);
    let mut wait = semaphore.acquire();
    assert!(semaphore.poll_acquire(&mut wait, 6).is_none());
    assert_eq!(semaphore.release(a), vec![6]);
    assert_eq!(semaphore.available(), 1);
    assert!(semaphore.poll_acquire(&mut wait, 6).is_some());
    assert_eq!(semaphore.available(), 0);
}

#[test]
fn barrier_last_arrival_leads() {
    let mut barrier = Barrier::<u32>::new(3);
    let mut a: BarrierWait = barrier.wait();
    let mut b = barrier.wait();
    let mut c = barrier.wait();
    assert!(barrier.poll_wait(&mut a, 1).0.is_none());
    assert!(barrier.poll_wait(&mut b, 2).0.is_none());
    let (res, woken) = barrier.poll_wait(&mut c, 3);
    assert!(res.unwrap().is_leader());
    assert_eq!(woken, vec![1, 2]);
    assert!(!barrier.poll_wait(&mut a, 1).0.unwrap().is_leader());
    assert!(!barrier.poll_wait(&mut b, 2).0.unwrap().is_leader());
}

#[test]
fn barrier_of_one_always_leads() {
    let mut barrier = Barrier::<u32>::new(1);
    for _ in 0..3 {
        let mut w = barrier.wait();
        assert!(barrier.poll_wait(&mut w, 0).0.unwrap().is_leader());
        barrier.drop_wait(w);
    }
}

#[test]
fn once_cell_first_initializer_wins() {
    let mut cell = OnceCell::<i32, u32>::new();
    let mut first = cell.get_or_try_init();
    let mut second = cell.get_or_try_init();
    assert_eq!(cell.poll_init(&mut first, 1), InitStep::RunSetter);
    assert_eq!(cell.poll_init(&mut second, 2), InitStep::Pending);
    let (res, woken) = cell.finish_init::<()>(first, Ok(7));
    assert!(res.is_ok());
    assert_eq!(woken, vec![2]);
    assert_eq!(cell.poll_init(&mut second, 2), InitStep::Ready);
    assert_eq!(cell.get(), Some(&7));
    assert_eq!(cell.take(), Some(7));
    assert_eq!(cell.get(), None);
}

#[test]
fn once_cell_failed_setter_lets_the_next_try() {
    let mut cell = OnceCell::<i32, u32>::new();
    let mut first = cell.get_or_try_init();
    let mut second = cell.get_or_try_init();
    assert_eq!(cell.poll_init(&mut first, 1), InitStep::RunSetter);
    assert_eq!(cell.poll_init(&mut second, 2), InitStep::Pending);
    let (res, woken) = cell.finish_init(first, Err("no"));
    assert_eq!(res, Err("no"));
    assert_eq!(woken, vec![2]);
    assert_eq!(cell.poll_init(&mut second, 2), InitStep::RunSetter);
}

#[test]
fn once_cell_wait_sees_the_value() {
    let mut cell = OnceCell::<i32, u32>::new();
    let mut wait = cell.wait();
    assert!(!cell.poll_wait(&mut wait, 5));
    let mut init = cell.get_or_try_init();
    assert_eq!(cell.poll_init(&mut init, 1), InitStep::RunSetter);
    let (_, woken) = cell.finish_init::<()>(init, Ok(1));
    assert_eq!(woken, vec![5]);
    assert!(cell.poll_wait(&mut wait, 5));
    let full = OnceCell::<i32, u32>::from_value(4);
    assert_eq!(full.get(), Some(&4));
}

#[test]
fn rwlock_writer_wakes_the_writer_behind_it() {
    let mut rwlock = RwLock::<i32, u32>::new(0);
    let w = rwlock.try_write().unwrap();
    let mut wait = rwlock.write();
    assert!(rwlock.poll_write(&mut wait, 7).is_none());
    assert_eq!(rwlock.release_write(w), vec![7]);
    let w2 = rwlock.poll_write(&mut wait, 7).unwrap();
    assert!(rwlock.release_write(w2).is_empty());
}
