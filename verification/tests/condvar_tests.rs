use compio_sync::condvar::CondvarGeneric;
use compio_sync::waiter_queue::linux::{FutexWaitOp, FutexWakeOp, WaiterQueue as LinuxWaiterQueue};
use compio_sync::waiter_queue::windows::WaiterQueue as WindowsWaiterQueue;
use compio_sync::waiter_queue::{Signal, Suspension};
use compio_sync::Condvar;
use std::sync::atomic::{AtomicUsize, Ordering};
use std::sync::Arc;
use std::task::{Wake, Waker};

struct CvCounter {
    wakes: AtomicUsize,
}

impl Wake for CvCounter {
    fn wake(self: Arc<Self>) {
        self.wakes.fetch_add(1, Ordering::SeqCst);
    }
}

fn cv_handle() -> (Waker, Arc<CvCounter>) {
    let counter = Arc::new(CvCounter { wakes: AtomicUsize::new(0) });
    (Waker::from(Arc::clone(&counter)), counter)
}

fn cv_wakes(counter: &Arc<CvCounter>) -> usize {
    counter.wakes.load(Ordering::SeqCst)
}

fn notify_all_resumes_each_of(waiters: usize) {
    let mut cv = Condvar::new();
    let mut counters = Vec::new();
    for _ in 0..waiters {
        let (handle, counter) = cv_handle();
        assert_ne!(cv.wait(handle), Suspension::Ready);
        counters.push(counter);
    }
    assert!(cv.notify_all().resume().is_empty());
    assert_eq!(cv.waiter_count(), 0);
    for counter in &counters {
        assert_eq!(cv_wakes(counter), 1);
    }
}

#[test]
fn test_condvar_creation() {
    let cv = Condvar::new();
    assert!(!cv.is_notified());
}

#[test]
fn new_condvar_has_no_waiters() {
    let cv = Condvar::new();
    assert_eq!(cv.waiter_count(), 0);
}

#[test]
fn wait_returns_at_once_when_notified() {
    let mut cv = Condvar::new();
    assert!(cv.notify_one().resume().is_empty());
    assert!(cv.is_notified());
    let (handle, counter) = cv_handle();
    assert_eq!(cv.wait(handle), Suspension::Ready);
    assert_eq!(cv.waiter_count(), 0);
    assert_eq!(cv_wakes(&counter), 0);

    let (again, _) = cv_handle();
    assert_eq!(cv.wait(again), Suspension::Ready);
}

#[test]
fn wait_suspends_until_notified() {
    let mut cv = Condvar::new();
    let (handle, counter) = cv_handle();
    assert_eq!(cv.wait(handle), Suspension::Single(0));
    assert_eq!(cv.waiter_count(), 1);
    assert_eq!(cv_wakes(&counter), 0);

    cv.notify_one().resume();
    assert_eq!(cv_wakes(&counter), 1);
    assert_eq!(cv.waiter_count(), 0);

    let (retry, _) = cv_handle();
    assert_eq!(cv.wait(retry), Suspension::Ready);
}

#[test]
fn notify_one_resumes_only_the_oldest_waiter() {
    let mut cv = Condvar::new();
    let (first, first_wakes) = cv_handle();
    let (second, second_wakes) = cv_handle();
    let (third, third_wakes) = cv_handle();
    assert_eq!(cv.wait(first), Suspension::Single(0));
    assert_eq!(cv.wait(second), Suspension::Multi);
    assert_eq!(cv.wait(third), Suspension::Multi);

    cv.notify_one().resume();
    assert_eq!(
        (cv_wakes(&first_wakes), cv_wakes(&second_wakes), cv_wakes(&third_wakes)),
        (1, 0, 0)
    );
    cv.notify_one().resume();
    assert_eq!(
        (cv_wakes(&first_wakes), cv_wakes(&second_wakes), cv_wakes(&third_wakes)),
        (1, 1, 0)
    );
}

#[test]
fn notify_all_resumes_one_waiter() {
    notify_all_resumes_each_of(1);
}

#[test]
fn notify_all_resumes_five_waiters() {
    notify_all_resumes_each_of(5);
}

#[test]
fn notify_all_resumes_a_hundred_waiters() {
    notify_all_resumes_each_of(100);
}

#[test]
fn notify_all_resumes_a_thousand_waiters() {
    notify_all_resumes_each_of(1000);
}

#[test]
fn clear_makes_the_next_wait_suspend() {
    let mut cv = Condvar::new();
    cv.notify_one().resume();
    cv.clear();
    assert!(!cv.is_notified());

    let (handle, counter) = cv_handle();
    assert_eq!(cv.wait(handle), Suspension::Single(0));
    assert_eq!(cv_wakes(&counter), 0);

    cv.notify_one().resume();
    assert_eq!(cv_wakes(&counter), 1);
    let (retry, _) = cv_handle();
    assert_eq!(cv.wait(retry), Suspension::Ready);
}

#[test]
fn clear_leaves_waiters_in_the_queue() {
    let mut cv = Condvar::new();
    let (handle, counter) = cv_handle();
    cv.wait(handle);
    cv.clear();
    assert_eq!(cv.waiter_count(), 1);
    assert_eq!(cv_wakes(&counter), 0);
}

#[test]
fn notification_stays_until_cleared() {
    let mut cv = Condvar::new();
    cv.notify_all().resume();
    for _ in 0..3 {
        let (handle, _) = cv_handle();
        assert_eq!(cv.wait(handle), Suspension::Ready);
    }
    cv.clear();
    let (handle, _) = cv_handle();
    assert_ne!(cv.wait(handle), Suspension::Ready);
}

#[test]
fn cancelled_wait_leaves_no_waiter() {
    let mut cv = Condvar::new();
    let (handle, counter) = cv_handle();
    let suspension = cv.wait(handle);
    assert_eq!(suspension, Suspension::Single(0));
    cv.cancel(suspension);
    assert_eq!(cv.waiter_count(), 0);
    cv.notify_all().resume();
    assert_eq!(cv_wakes(&counter), 0);
}

#[test]
fn kernel_backed_condvar_hands_back_operations() {
    let mut cv = CondvarGeneric::with_waiters(LinuxWaiterQueue::with_support(true));
    let (handle, counter) = cv_handle();
    assert_eq!(cv.wait(handle), Suspension::Futex(FutexWaitOp { expected: 1 }));
    let wake = cv.notify_one();
    assert!(wake.handles.is_empty());
    assert_eq!(wake.resume(), vec![Signal::Futex(FutexWakeOp { count: 1 })]);
    let (second, _) = cv_handle();
    assert_eq!(cv.wait(second), Suspension::Ready);
    cv.clear();
    let (third, _) = cv_handle();
    assert_eq!(cv.wait(third), Suspension::Futex(FutexWaitOp { expected: 3 }));
    assert_eq!(cv.notify_all().resume(), vec![Signal::Futex(FutexWakeOp { count: u32::MAX })]);
    assert_eq!(cv_wakes(&counter), 0);
}

#[test]
fn event_backed_condvar_asks_for_the_event() {
    let mut cv = CondvarGeneric::with_waiters(WindowsWaiterQueue::with_support(true));
    let (handle, _) = cv_handle();
    assert_eq!(cv.wait(handle), Suspension::Event);
    assert_eq!(cv.waiter_count(), 0);
    assert_eq!(cv.notify_one().resume(), vec![Signal::Event]);
    assert_eq!(cv.notify_all().resume(), vec![Signal::Event]);
}
