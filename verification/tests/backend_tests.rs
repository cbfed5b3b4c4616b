use compio_sync::waiter_queue::linux::{
    supports_io_uring_futex, FutexWaitOp, FutexWakeOp, IoUringWaiterQueue,
    WaiterQueue as LinuxWaiterQueue,
};
use compio_sync::waiter_queue::windows::{
    supports_wait_on_address, WaitOnAddressQueue, WaiterQueue as WindowsWaiterQueue,
};
use compio_sync::waiter_queue::{Capability, Signal, Suspension, WaiterQueueTrait};
use std::cell::Cell;
use std::sync::atomic::{AtomicUsize, Ordering};
use std::sync::Arc;
use std::task::{Wake, Waker};

struct BackendCounter {
    wakes: AtomicUsize,
}

impl Wake for BackendCounter {
    fn wake(self: Arc<Self>) {
        self.wakes.fetch_add(1, Ordering::SeqCst);
    }
}

fn backend_handle() -> (Waker, Arc<BackendCounter>) {
    let counter = Arc::new(BackendCounter { wakes: AtomicUsize::new(0) });
    (Waker::from(Arc::clone(&counter)), counter)
}

#[test]
fn probe_runs_once_and_its_answer_is_kept() {
    for answer in [true, false] {
        let mut cache = Capability::Unknown;
        let probes = Cell::new(0u32);
        let probe = || {
            probes.set(probes.get() + 1);
            answer
        };
        assert_eq!(supports_io_uring_futex(&mut cache, probe), answer);
        assert_eq!(probes.get(), 1);
        let expected = if answer { Capability::Supported } else { Capability::Unsupported };
        assert_eq!(cache, expected);

        let contrary = || {
            probes.set(probes.get() + 1);
            !answer
        };
        assert_eq!(supports_io_uring_futex(&mut cache, contrary), answer);
        assert_eq!(probes.get(), 1);
        assert_eq!(cache, expected);
    }
}

#[test]
fn cached_capability_answers_without_probing() {
    let mut cache = Capability::Supported;
    assert!(supports_wait_on_address(&mut cache, || false));
    assert_eq!(cache, Capability::Supported);
    let mut cache = Capability::Unsupported;
    assert!(!supports_wait_on_address(&mut cache, || true));
    assert_eq!(cache, Capability::Unsupported);
    let mut cache = Capability::Unknown;
    assert!(cache.resolve(|| true));
    assert!(cache.resolve(|| false));
}

#[test]
fn futex_operations_carry_their_values() {
    assert_eq!(FutexWaitOp::new(7).expected, 7);
    assert_eq!(FutexWakeOp::new(3).count, 3);
}

#[test]
fn kernel_backed_queue_counts_generations() {
    let mut queue = IoUringWaiterQueue::new();
    assert_eq!(queue.get_futex(), 0);
    assert_eq!(queue.wake_one(), FutexWakeOp { count: 1 });
    assert_eq!(queue.get_futex(), 1);
    assert_eq!(queue.wake_all(), FutexWakeOp { count: u32::MAX });
    assert_eq!(queue.get_futex(), 2);
    assert_eq!(queue.waiter_count(), None);
}

#[test]
fn kernel_backed_queue_waits_for_the_current_generation() {
    let mut queue = IoUringWaiterQueue::new();
    assert_eq!(queue.add_waiter_if(|| true), Suspension::Ready);
    assert_eq!(queue.get_futex(), 0);
    assert_eq!(queue.add_waiter_if(|| false), Suspension::Futex(FutexWaitOp { expected: 1 }));
    assert_eq!(queue.get_futex(), 1);
    queue.wake_one();
    queue.wake_one();
    assert_eq!(queue.get_futex(), 3);
    assert_eq!(queue.add_waiter_if(|| false), Suspension::Futex(FutexWaitOp { expected: 4 }));
    assert_eq!(queue.get_futex(), 4);
    assert_eq!(queue.suspend_unless(true), Suspension::Ready);
    assert_eq!(queue.get_futex(), 4);
    assert_eq!(queue.suspend_unless(false), Suspension::Futex(FutexWaitOp { expected: 5 }));
}

#[test]
fn generation_counts_every_wake() {
    let mut queue = LinuxWaiterQueue::with_support(true);
    assert_eq!(queue.get_futex(), Some(0));
    let mut wakes: u64 = 0;
    while wakes < 70_000 {
        let _ = queue.wake_one();
        wakes += 1;
    }
    assert_eq!(queue.get_futex(), Some(70_000));
}

#[test]
fn linux_queue_follows_the_capability() {
    let supported = LinuxWaiterQueue::with_support(true);
    assert!(matches!(supported, LinuxWaiterQueue::IoUring(_)));
    assert_eq!(supported.waiter_count(), None);

    let fallback = LinuxWaiterQueue::with_support(false);
    assert!(matches!(fallback, LinuxWaiterQueue::Generic(_)));
    assert_eq!(fallback.get_futex(), None);
    assert_eq!(fallback.waiter_count(), Some(0));

    assert!(matches!(LinuxWaiterQueue::new(), LinuxWaiterQueue::Generic(_)));

    let mut cache = Capability::Unknown;
    assert!(matches!(LinuxWaiterQueue::probed(&mut cache, || true), LinuxWaiterQueue::IoUring(_)));
    assert!(matches!(LinuxWaiterQueue::probed(&mut cache, || false), LinuxWaiterQueue::IoUring(_)));
    let mut cache = Capability::Unknown;
    assert!(matches!(LinuxWaiterQueue::probed(&mut cache, || false), LinuxWaiterQueue::Generic(_)));
    assert_eq!(cache, Capability::Unsupported);
}

#[test]
fn linux_fallback_behaves_as_the_portable_queue() {
    let mut queue = LinuxWaiterQueue::with_support(false);
    let (first, first_wakes) = backend_handle();
    let (second, second_wakes) = backend_handle();
    assert_eq!(queue.add_waiter_if(|| false, first), Suspension::Single(0));
    assert_eq!(queue.add_waiter_if(|| false, second), Suspension::Multi);
    assert_eq!(queue.waiter_count(), Some(2));
    assert!(queue.wake_one().resume().is_empty());
    assert_eq!(first_wakes.wakes.load(Ordering::SeqCst), 1);
    assert_eq!(second_wakes.wakes.load(Ordering::SeqCst), 0);
    assert!(queue.wake_all().resume().is_empty());
    assert_eq!(second_wakes.wakes.load(Ordering::SeqCst), 1);
    assert_eq!(queue.waiter_count(), Some(0));
}

#[test]
fn linux_kernel_queue_stores_no_handle() {
    let mut queue = LinuxWaiterQueue::with_support(true);
    let (handle, wakes) = backend_handle();
    assert_eq!(
        queue.add_waiter_if(|| false, handle),
        Suspension::Futex(FutexWaitOp { expected: 1 })
    );
    assert_eq!(queue.wake_one().resume(), vec![Signal::Futex(FutexWakeOp { count: 1 })]);
    assert_eq!(queue.wake_all().resume(), vec![Signal::Futex(FutexWakeOp { count: u32::MAX })]);
    assert_eq!(queue.get_futex(), Some(3));
    queue.withdraw(Suspension::Futex(FutexWaitOp { expected: 1 }));
    assert_eq!(wakes.wakes.load(Ordering::SeqCst), 0);
    let (other, _) = backend_handle();
    assert_eq!(queue.add_waiter_if(|| true, other), Suspension::Ready);
}

#[test]
fn event_backed_queue_keeps_its_record() {
    let mut queue = WaitOnAddressQueue::new();
    assert_eq!(queue.waiter_count(), 0);
    assert_eq!(queue.add_waiter_if(|| true), Suspension::Ready);
    assert_eq!(queue.add_waiter_if(|| false), Suspension::Event);
    assert_eq!(queue.suspend_unless(false), Suspension::Event);
    queue.wake_one();
    assert_eq!(queue.waiter_count(), 0);
    queue.wake_all();
    assert_eq!(queue.waiter_count(), 0);
}

#[test]
fn windows_queue_follows_the_capability() {
    let mut supported = WindowsWaiterQueue::with_support(true);
    assert!(matches!(supported, WindowsWaiterQueue::WaitOnAddress(_)));
    let (handle, wakes) = backend_handle();
    assert_eq!(supported.add_waiter_if(|| false, handle), Suspension::Event);
    assert_eq!(supported.wake_one().resume(), vec![Signal::Event]);
    assert_eq!(supported.wake_all().resume(), vec![Signal::Event]);
    assert_eq!(supported.waiter_count(), 0);
    assert_eq!(wakes.wakes.load(Ordering::SeqCst), 0);

    let mut fallback = WindowsWaiterQueue::with_support(false);
    assert!(matches!(fallback, WindowsWaiterQueue::Generic(_)));
    let (handle, wakes) = backend_handle();
    assert_eq!(fallback.add_waiter_if(|| false, handle), Suspension::Single(0));
    assert_eq!(fallback.waiter_count(), 1);
    assert!(fallback.wake_one().resume().is_empty());
    assert_eq!(wakes.wakes.load(Ordering::SeqCst), 1);

    assert!(matches!(WindowsWaiterQueue::new(), WindowsWaiterQueue::Generic(_)));
    let mut cache = Capability::Unknown;
    assert!(matches!(
        WindowsWaiterQueue::probed(&mut cache, || true),
        WindowsWaiterQueue::WaitOnAddress(_)
    ));
}

#[test]
fn backends_meet_the_common_contract() {
    let mut kernel = <IoUringWaiterQueue as WaiterQueueTrait>::new();
    let (handle, _) = backend_handle();
    assert_eq!(
        WaiterQueueTrait::add_waiter_if(&mut kernel, || false, handle),
        Suspension::Futex(FutexWaitOp { expected: 1 })
    );
    assert_eq!(
        WaiterQueueTrait::wake_one(&mut kernel).resume(),
        vec![Signal::Futex(FutexWakeOp { count: 1 })]
    );
    assert_eq!(WaiterQueueTrait::waiter_count(&kernel), None);

    let mut event = <WaitOnAddressQueue as WaiterQueueTrait>::new();
    let (handle, _) = backend_handle();
    assert_eq!(WaiterQueueTrait::add_waiter_if(&mut event, || false, handle), Suspension::Event);
    assert_eq!(WaiterQueueTrait::wake_all(&mut event).resume(), vec![Signal::Event]);
    assert_eq!(WaiterQueueTrait::waiter_count(&event), Some(0));
}
