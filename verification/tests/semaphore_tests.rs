use compio_sync::semaphore::{Acquisition, SemaphoreGeneric};
use compio_sync::waiter_queue::linux::{FutexWakeOp, WaiterQueue as LinuxWaiterQueue};
use compio_sync::waiter_queue::{Signal, Suspension};
use compio_sync::{Semaphore, SemaphorePermit};
use std::sync::atomic::{AtomicUsize, Ordering};
use std::sync::Arc;
use std::task::{Wake, Waker};

struct SemCounter {
    wakes: AtomicUsize,
}

impl Wake for SemCounter {
    fn wake(self: Arc<Self>) {
        self.wakes.fetch_add(1, Ordering::SeqCst);
    }
}

fn sem_handle() -> (Waker, Arc<SemCounter>) {
    let counter = Arc::new(SemCounter { wakes: AtomicUsize::new(0) });
    (Waker::from(Arc::clone(&counter)), counter)
}

fn sem_wakes(counter: &Arc<SemCounter>) -> usize {
    counter.wakes.load(Ordering::SeqCst)
}

fn expect_permit(acquisition: Acquisition) -> SemaphorePermit {
    match acquisition {
        Acquisition::Acquired(permit) => permit,
        Acquisition::Suspended(suspension) => panic!("suspended: {:?}", suspension),
    }
}

fn expect_suspended(acquisition: Acquisition) -> Suspension {
    match acquisition {
        Acquisition::Acquired(_) => panic!("acquired"),
        Acquisition::Suspended(suspension) => suspension,
    }
}

#[test]
fn test_semaphore_new() {
    let sem = Semaphore::new(100);
    assert_eq!(sem.available_permits(), 100);
    assert_eq!(sem.max_permits(), 100);
    assert_eq!(sem.in_use(), 0);
}

#[test]
fn semaphore_test_semaphore_try_acquire() {
    let mut sem = Semaphore::new(2);

    let permit1 = sem.try_acquire();
    assert!(permit1.is_some());
    assert_eq!(sem.available_permits(), 1);
    assert_eq!(sem.in_use(), 1);

    let permit2 = sem.try_acquire();
    assert!(permit2.is_some());
    assert_eq!(sem.available_permits(), 0);
    assert_eq!(sem.in_use(), 2);

    let permit3 = sem.try_acquire();
    assert!(permit3.is_none());
    assert_eq!(sem.available_permits(), 0);

    sem.release(permit1.unwrap()).resume();
    assert_eq!(sem.available_permits(), 1);
    assert_eq!(sem.in_use(), 1);

    let permit4 = sem.try_acquire();
    assert!(permit4.is_some());
    assert_eq!(sem.available_permits(), 0);
}

#[test]
fn test_semaphore_permit_drop() {
    let mut sem = Semaphore::new(1);

    {
        let permit = sem.try_acquire().unwrap();
        assert_eq!(sem.available_permits(), 0);
        sem.release(permit).resume();
    }

    assert_eq!(sem.available_permits(), 1);
}

#[test]
fn reduce_then_add_restores_the_available_permits() {
    let mut sem = Semaphore::new(100);
    let reduced = sem.reduce_permits(20);
    assert_eq!(reduced, 20);
    assert_eq!(sem.available_permits(), 80);
    assert_eq!(sem.max_permits(), 100);

    let wake = sem.add_permits(20);
    assert!(wake.handles.is_empty());
    assert!(wake.resume().is_empty());
    assert_eq!(sem.available_permits(), 100);
}

#[test]
fn reduce_stops_at_zero() {
    let mut sem = Semaphore::new(5);
    let held = sem.try_acquire().unwrap();
    assert_eq!(sem.reduce_permits(10), 4);
    assert_eq!(sem.available_permits(), 0);
    assert_eq!(sem.reduce_permits(3), 0);
    assert_eq!(sem.reduce_permits(0), 0);
    assert_eq!(sem.available_permits(), 0);
    assert_eq!(sem.in_use(), 5);

    sem.release(held).resume();
    assert_eq!(sem.available_permits(), 1);
    sem.add_permits(4).resume();
    assert_eq!(sem.available_permits(), 5);
    assert_eq!(sem.in_use(), 0);
}

#[test]
fn reduce_by_all_that_is_available() {
    let mut sem = Semaphore::new(3);
    assert_eq!(sem.reduce_permits(3), 3);
    assert_eq!(sem.available_permits(), 0);
    assert!(sem.try_acquire().is_none());
    sem.add_permits(3).resume();
    assert_eq!(sem.available_permits(), 3);
}

#[test]
fn available_and_in_use_add_up_to_max() {
    let max: usize = 4;
    let mut sem = Semaphore::new(max);
    let mut held: Vec<SemaphorePermit> = Vec::new();
    let steps = [true, true, false, true, true, true, true, false, false, true, false, false];
    for acquire in steps {
        if acquire {
            if let Some(permit) = sem.try_acquire() {
                held.push(permit);
            }
        } else if let Some(permit) = held.pop() {
            sem.release(permit).resume();
        }
        assert_eq!(sem.available_permits() + sem.in_use(), max);
        assert_eq!(sem.in_use(), held.len());
        assert!(sem.available_permits() <= max);
        assert!(held.len() <= max);
    }
}

#[test]
fn no_more_permits_than_max_are_out_at_once() {
    let mut sem = Semaphore::new(3);
    let mut held: Vec<SemaphorePermit> = Vec::new();
    let mut suspended = 0;
    for _ in 0..10 {
        let (handle, _) = sem_handle();
        match sem.acquire(handle) {
            Acquisition::Acquired(permit) => held.push(permit),
            Acquisition::Suspended(suspension) => {
                assert_ne!(suspension, Suspension::Ready);
                suspended += 1;
            }
        }
        assert!(held.len() <= 3);
    }
    assert_eq!(held.len(), 3);
    assert_eq!(suspended, 7);
    assert_eq!(sem.available_permits(), 0);
    assert_eq!(sem.in_use(), 3);
}

#[test]
fn acquire_takes_a_permit_without_registering() {
    let mut sem = Semaphore::new(2);
    let (handle, counter) = sem_handle();
    let permit = expect_permit(sem.acquire(handle));
    assert_eq!(sem.available_permits(), 1);
    assert!(sem.release(permit).resume().is_empty());
    assert_eq!(sem.available_permits(), 2);
    assert_eq!(sem_wakes(&counter), 0);
}

#[test]
fn waiter_is_resumed_by_release_and_then_acquires() {
    let mut sem = Semaphore::new(1);
    let (handle_a, _) = sem_handle();
    let permit_a = expect_permit(sem.acquire(handle_a));
    assert_eq!(sem.available_permits(), 0);

    let (handle_t, wakes_t) = sem_handle();
    let suspension = expect_suspended(sem.acquire(handle_t));
    assert_eq!(suspension, Suspension::Single(0));
    assert_eq!(sem_wakes(&wakes_t), 0);

    assert!(sem.release(permit_a).resume().is_empty());
    assert_eq!(sem.available_permits(), 1);
    assert_eq!(sem_wakes(&wakes_t), 1);

    let (handle_again, _) = sem_handle();
    let _permit_t = expect_permit(sem.acquire(handle_again));
    assert_eq!(sem.available_permits(), 0);
    assert_eq!(sem.in_use(), 1);
}

#[test]
fn waiters_are_resumed_one_per_release_oldest_first() {
    let mut sem = Semaphore::new(1);
    let permit = sem.try_acquire().unwrap();
    let (first, first_wakes) = sem_handle();
    let (second, second_wakes) = sem_handle();
    assert_eq!(expect_suspended(sem.acquire(first)), Suspension::Single(0));
    assert_eq!(expect_suspended(sem.acquire(second)), Suspension::Multi);

    sem.release(permit).resume();
    assert_eq!((sem_wakes(&first_wakes), sem_wakes(&second_wakes)), (1, 0));

    let permit = sem.try_acquire().unwrap();
    sem.release(permit).resume();
    assert_eq!((sem_wakes(&first_wakes), sem_wakes(&second_wakes)), (1, 1));
}

#[test]
fn a_stolen_permit_sends_the_woken_task_back_to_the_queue() {
    let mut sem = Semaphore::new(1);
    let permit = sem.try_acquire().unwrap();
    let (waiting, wakes) = sem_handle();
    expect_suspended(sem.acquire(waiting));

    sem.release(permit).resume();
    assert_eq!(sem_wakes(&wakes), 1);
    let thief = sem.try_acquire().unwrap();

    let (retry, retry_wakes) = sem_handle();
    expect_suspended(sem.acquire(retry));
    assert_eq!(sem.available_permits(), 0);

    sem.release(thief).resume();
    assert_eq!(sem_wakes(&retry_wakes), 1);
    let (last, _) = sem_handle();
    expect_permit(sem.acquire(last));
}

#[test]
fn add_permits_resumes_one_waiter_per_permit() {
    let mut sem = Semaphore::new(3);
    assert_eq!(sem.reduce_permits(3), 3);
    let mut counters = Vec::new();
    for _ in 0..5 {
        let (handle, counter) = sem_handle();
        expect_suspended(sem.acquire(handle));
        counters.push(counter);
    }
    let wake = sem.add_permits(2);
    assert_eq!(wake.handles.len(), 2);
    assert!(wake.resume().is_empty());
    assert_eq!(sem.available_permits(), 2);
    let woken: Vec<usize> = counters.iter().map(sem_wakes).collect();
    assert_eq!(woken, vec![1, 1, 0, 0, 0]);
}

#[test]
fn cancelled_acquires_leave_the_permit() {
    let mut sem = Semaphore::new(1);
    for _ in 0..100 {
        let (handle, _) = sem_handle();
        let permit = expect_permit(sem.acquire(handle));
        sem.release(permit).resume();
    }
    assert_eq!(sem.available_permits(), 1);

    let holder = sem.try_acquire().unwrap();
    for _ in 0..100 {
        let (handle, wakes) = sem_handle();
        let suspension = expect_suspended(sem.acquire(handle));
        sem.cancel(suspension);
        assert_eq!(sem_wakes(&wakes), 0);
        assert_eq!(sem.available_permits(), 0);
    }
    sem.release(holder).resume();
    assert_eq!(sem.available_permits(), 1);

    let (handle, _) = sem_handle();
    expect_permit(sem.acquire(handle));
    assert_eq!(sem.available_permits(), 0);
}

#[test]
fn kernel_backed_semaphore_hands_back_the_wake_operations() {
    let mut sem = SemaphoreGeneric::with_waiters(2, LinuxWaiterQueue::with_support(true));
    let first = sem.try_acquire().unwrap();
    let second = sem.try_acquire().unwrap();
    let (handle, wakes) = sem_handle();
    let suspension = expect_suspended(sem.acquire(handle));
    assert!(matches!(suspension, Suspension::Futex(op) if op.expected == 1));

    assert_eq!(sem.release(first).resume(), vec![Signal::Futex(FutexWakeOp { count: 1 })]);
    assert_eq!(sem.release(second).resume(), vec![Signal::Futex(FutexWakeOp { count: 1 })]);
    assert_eq!(sem_wakes(&wakes), 0);
    assert_eq!(sem.available_permits(), 2);

    assert_eq!(sem.reduce_permits(2), 2);
    let wake = sem.add_permits(2);
    assert!(wake.handles.is_empty());
    assert_eq!(
        wake.resume(),
        vec![Signal::Futex(FutexWakeOp { count: 1 }), Signal::Futex(FutexWakeOp { count: 1 })]
    );
}

#[test]
fn test_kernel_version_detection() {
    let mut sem = Semaphore::new(1);

    let permit = sem.try_acquire();
    assert!(permit.is_some());

    println!("Semaphore created successfully");
    println!("Available permits: {}", sem.available_permits());
}
