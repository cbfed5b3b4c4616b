//! The completion-queue backend: waiters sleep in the kernel on a shared
//! 32-bit generation counter, and the queue decides which operations the
//! caller submits for them.

use crate::waiter_queue::generic::{suspension_after_registration, WaiterQueue as GenericWaiterQueue};
use crate::waiter_queue::{
    after_registration, after_wake_one, checks_allowed, handles_of, woken_by_wake_one, Capability,
    Signal, Suspension, Woken, WaiterQueueTrait,
};
use std::task::Waker;
use vstd::prelude::*;

verus! {

/// "Suspend until the counter differs from `expected`."
#[derive(Debug, Clone, Copy, PartialEq, Eq, Structural)]
pub struct FutexWaitOp {
    pub expected: u32,
}

impl FutexWaitOp {
    /// A wait for a change of the counter from `expected`.
    pub fn new(expected: u32) -> (op: Self)
        ensures
            op.expected == expected,
    {
        FutexWaitOp { expected }
    }
}

/// "Resume up to `count` of the tasks that sleep on the counter."
#[derive(Debug, Clone, Copy, PartialEq, Eq, Structural)]
pub struct FutexWakeOp {
    pub count: u32,
}

impl FutexWakeOp {
    /// A wake of up to `count` sleeping tasks.
    pub fn new(count: u32) -> (op: Self)
        ensures
            op.count == count,
    {
        FutexWakeOp { count }
    }
}

/// The counter's value after one more step: it wraps around at `u32::MAX`.
pub open spec fn next_generation(generation: u32) -> u32 {
    if generation == u32::MAX {
        0u32
    } else {
        (generation + 1) as u32
    }
}

/// Whether the runtime's completion queue supports the wait and wake
/// operations. `cache` is the process-wide answer; `probe` asks the kernel and
/// runs only on the first call.
pub fn supports_io_uring_futex<P: FnOnce() -> bool>(cache: &mut Capability, probe: P) -> (supported:
    bool)
    requires
        probe.requires(()),
    ensures
        final(cache).known() == Some(supported),
        match old(cache).known() {
            Some(cached) => supported == cached,
            None => probe.ensures((), supported),
        },
{
    cache.resolve(probe)
}

/// The kernel-backed queue. It stores no handle: it owns the generation
/// counter that sleeping tasks watch.
pub struct IoUringWaiterQueue {
    futex: u32,
}

impl IoUringWaiterQueue {
    /// The generation counter.
    pub closed spec fn generation(&self) -> u32 {
        self.futex
    }

    /// A queue whose counter starts at 0.
    pub fn new() -> (queue: Self)
        ensures
            queue.generation() == 0,
    {
        IoUringWaiterQueue { futex: 0 }
    }

    /// The current value of the counter that waiters sleep on.
    pub fn get_futex(&self) -> (generation: u32)
        ensures
            generation == self.generation(),
    {
        self.futex
    }

    /// How a registration ends whose check of the condition gave `held`: a
    /// task that has to sleep waits for the counter to leave the value to
    /// which its own registration advances it.
    pub open spec fn suspension_for(&self, held: bool) -> Suspension {
        if held {
            Suspension::Ready
        } else {
            Suspension::Futex(FutexWaitOp { expected: next_generation(self.generation()) })
        }
    }

    /// The counter after a registration whose check of the condition gave
    /// `held`.
    pub open spec fn generation_after(&self, held: bool) -> u32 {
        if held {
            self.generation()
        } else {
            next_generation(self.generation())
        }
    }

    /// A registration, for a caller that has just checked the condition and
    /// found `held`. If it held, nothing happens. Otherwise the counter
    /// advances, and the caller has to submit a wait keyed on its new value.
    pub fn suspend_unless(&mut self, held: bool) -> (suspension: Suspension)
        ensures
            suspension == old(self).suspension_for(held),
            final(self).generation() == old(self).generation_after(held),
    {
        if held {
            return Suspension::Ready;
        }
        self.futex = self.futex.wrapping_add(1);
        Suspension::Futex(FutexWaitOp::new(self.futex))
    }

    /// Checks `condition` once and registers the caller unless it holds, as
    /// `suspend_unless` says.
    pub fn add_waiter_if<F: Fn() -> bool>(&mut self, condition: F) -> (suspension: Suspension)
        requires
            condition.requires(()),
        ensures
            exists|held: bool| #[trigger]
                condition.ensures((), held) && suspension == old(self).suspension_for(held)
                    && final(self).generation() == old(self).generation_after(held),
    {
        let held = condition();
        self.suspend_unless(held)
    }

    /// Advances the counter and asks for one sleeping task to be resumed.
    pub fn wake_one(&mut self) -> (op: FutexWakeOp)
        ensures
            final(self).generation() == next_generation(old(self).generation()),
            op.count == 1,
    {
        self.futex = self.futex.wrapping_add(1);
        FutexWakeOp::new(1)
    }

    /// Advances the counter and asks for every sleeping task to be resumed.
    pub fn wake_all(&mut self) -> (op: FutexWakeOp)
        ensures
            final(self).generation() == next_generation(old(self).generation()),
            op.count == u32::MAX,
    {
        self.futex = self.futex.wrapping_add(1);
        FutexWakeOp::new(u32::MAX)
    }

    /// This backend cannot count its waiters: the kernel holds them and
    /// offers no query. The answer is always `None`.
    pub fn waiter_count(&self) -> (count: Option<usize>)
        ensures
            count is None,
    {
        None
    }
}

impl WaiterQueueTrait for IoUringWaiterQueue {
    open spec fn wf(&self) -> bool {
        true
    }

    open spec fn pending(&self) -> Seq<Waker> {
        Seq::empty()
    }

    open spec fn counts_waiters(&self) -> bool {
        false
    }

    open spec fn counted(&self) -> nat {
        0
    }

    open spec fn after_withdrawal(&self, suspension: Suspension) -> Seq<Waker> {
        Seq::empty()
    }

    open spec fn suspension_after(&self, first: bool, second: bool) -> Suspension {
        self.suspension_for(first || second)
    }

    open spec fn signals_for_one(&self) -> Seq<Signal> {
        seq![Signal::Futex(FutexWakeOp { count: 1 })]
    }

    open spec fn signals_for_all(&self) -> Seq<Signal> {
        seq![Signal::Futex(FutexWakeOp { count: u32::MAX })]
    }

    open spec fn is_fresh(&self) -> bool {
        self.generation() == 0
    }

    open spec fn registered(&self, after: Self, handle: Waker, first: bool, second: bool) -> bool {
        after.generation() == self.generation_after(first || second)
    }

    open spec fn woke_one(&self, after: Self) -> bool {
        after.generation() == next_generation(self.generation())
    }

    open spec fn woke_all(&self, after: Self) -> bool {
        after.generation() == next_generation(self.generation())
    }

    open spec fn withdrew(&self, after: Self, suspension: Suspension) -> bool {
        after.generation() == self.generation()
    }

    fn new() -> (queue: Self) {
        IoUringWaiterQueue::new()
    }

    fn add_waiter_if<F: Fn() -> bool>(&mut self, condition: F, handle: Waker) -> (suspension:
        Suspension) {
        let suspension = IoUringWaiterQueue::add_waiter_if(self, condition);
        proof {
            let held = choose|held: bool| #[trigger]
                condition.ensures((), held) && suspension == old(self).suspension_for(held)
                    && self.generation() == old(self).generation_after(held);
            assert(checks_allowed(condition, held, false));
        }
        suspension
    }

    fn wake_one(&mut self) -> (wake: Woken) {
        Woken::of_signal(Signal::Futex(IoUringWaiterQueue::wake_one(self)))
    }

    fn wake_all(&mut self) -> (wake: Woken) {
        Woken::of_signal(Signal::Futex(IoUringWaiterQueue::wake_all(self)))
    }

    fn withdraw(&mut self, suspension: Suspension) {
    }

    fn waiter_count(&self) -> (count: Option<usize>) {
        IoUringWaiterQueue::waiter_count(self)
    }
}

/// The queue of this platform: the kernel-backed one where the runtime
/// supports it, the portable one elsewhere.
pub enum WaiterQueue {
    /// Waiters sleep in the kernel.
    IoUring(IoUringWaiterQueue),
    /// Waiters' handles are stored in the queue.
    Generic(GenericWaiterQueue),
}

impl WaiterQueue {
    /// The invariant of the backend in use.
    pub open spec fn wf(&self) -> bool {
        match self {
            WaiterQueue::IoUring(_) => true,
            WaiterQueue::Generic(queue) => queue.wf(),
        }
    }

    /// The handles that the queue stores.
    pub open spec fn pending(&self) -> Seq<Waker> {
        match self {
            WaiterQueue::IoUring(_) => Seq::empty(),
            WaiterQueue::Generic(queue) => queue.pending(),
        }
    }

    /// Whether the backend in use can count its waiters.
    pub open spec fn counts_waiters(&self) -> bool {
        self is Generic
    }

    /// The counter that waiters sleep on, where the kernel-backed queue is in
    /// use.
    pub open spec fn generation(&self) -> Option<u32> {
        match self {
            WaiterQueue::IoUring(queue) => Some(queue.generation()),
            WaiterQueue::Generic(_) => None,
        }
    }

    /// The queue is as it was made.
    pub open spec fn is_fresh(&self) -> bool {
        match self {
            WaiterQueue::IoUring(queue) => queue.generation() == 0,
            WaiterQueue::Generic(queue) => queue.is_fresh(),
        }
    }

    /// How a registration ends whose checks of the condition give `first`
    /// and `second`.
    pub open spec fn suspension_after(&self, first: bool, second: bool) -> Suspension {
        match self {
            WaiterQueue::IoUring(queue) => queue.suspension_for(first || second),
            WaiterQueue::Generic(queue) => suspension_after_registration(
                queue.mode(),
                queue.next_ticket(),
                first,
                second,
            ),
        }
    }

    /// `after` is this queue after a registration of `handle` whose checks of
    /// the condition gave `first` and `second`.
    pub open spec fn registered(&self, after: Self, handle: Waker, first: bool, second: bool) -> bool {
        match (self, after) {
            (WaiterQueue::IoUring(queue), WaiterQueue::IoUring(next)) => next.generation()
                == queue.generation_after(first || second),
            (WaiterQueue::Generic(queue), WaiterQueue::Generic(next)) => queue.registered(
                next,
                handle,
                first,
                second,
            ),
            _ => false,
        }
    }

    /// `after` is this queue after `wake_one`.
    pub open spec fn woke_one(&self, after: Self) -> bool {
        match (self, after) {
            (WaiterQueue::IoUring(queue), WaiterQueue::IoUring(next)) => next.generation()
                == next_generation(queue.generation()),
            (WaiterQueue::Generic(queue), WaiterQueue::Generic(next)) => queue.woke_one(next),
            _ => false,
        }
    }

    /// `after` is this queue after `wake_all`.
    pub open spec fn woke_all(&self, after: Self) -> bool {
        match (self, after) {
            (WaiterQueue::IoUring(queue), WaiterQueue::IoUring(next)) => next.generation()
                == next_generation(queue.generation()),
            (WaiterQueue::Generic(queue), WaiterQueue::Generic(next)) => queue.woke_all(next),
            _ => false,
        }
    }

    /// `after` is this queue after `withdraw(suspension)`.
    pub open spec fn withdrew(&self, after: Self, suspension: Suspension) -> bool {
        match (self, after) {
            (WaiterQueue::IoUring(queue), WaiterQueue::IoUring(next)) => next.generation()
                == queue.generation(),
            (WaiterQueue::Generic(queue), WaiterQueue::Generic(next)) => queue.withdrew(
                next,
                suspension,
            ),
            _ => false,
        }
    }

    /// The signals that `wake_one` leaves for the caller to deliver.
    pub open spec fn signals_for_one(&self) -> Seq<Signal> {
        match self {
            WaiterQueue::IoUring(_) => seq![Signal::Futex(FutexWakeOp { count: 1 })],
            WaiterQueue::Generic(_) => Seq::empty(),
        }
    }

    /// The signals that `wake_all` leaves for the caller to deliver.
    pub open spec fn signals_for_all(&self) -> Seq<Signal> {
        match self {
            WaiterQueue::IoUring(_) => seq![Signal::Futex(FutexWakeOp { count: u32::MAX })],
            WaiterQueue::Generic(_) => Seq::empty(),
        }
    }

    /// The pending handles after withdrawing a registration.
    pub open spec fn after_withdrawal(&self, suspension: Suspension) -> Seq<Waker> {
        match self {
            WaiterQueue::IoUring(_) => Seq::empty(),
            WaiterQueue::Generic(queue) => queue.after_withdrawal(suspension),
        }
    }

    /// What `waiter_count` reports where the backend can count.
    pub open spec fn counted(&self) -> nat {
        match self {
            WaiterQueue::IoUring(_) => 0,
            WaiterQueue::Generic(queue) => queue.pending().len(),
        }
    }

    /// The portable queue. It is right on every system; [`Self::with_support`]
    /// and [`Self::probed`] choose by the runtime's capability.
    pub fn new() -> (queue: Self)
        ensures
            queue is Generic,
            queue.wf(),
            queue.is_fresh(),
            queue.pending() == Seq::<Waker>::empty(),
    {
        WaiterQueue::Generic(GenericWaiterQueue::new())
    }

    /// The kernel-backed queue if `supported`, else the portable one.
    pub fn with_support(supported: bool) -> (queue: Self)
        ensures
            supported <==> queue is IoUring,
            queue.wf(),
            queue.is_fresh(),
            queue.pending() == Seq::<Waker>::empty(),
    {
        if supported {
            WaiterQueue::IoUring(IoUringWaiterQueue::new())
        } else {
            WaiterQueue::Generic(GenericWaiterQueue::new())
        }
    }

    /// Chooses the backend by the cached capability, probing on first use.
    pub fn probed<P: FnOnce() -> bool>(cache: &mut Capability, probe: P) -> (queue: Self)
        requires
            probe.requires(()),
        ensures
            final(cache).known() == Some(queue is IoUring),
            match old(cache).known() {
                Some(cached) => cached == (queue is IoUring),
                None => probe.ensures((), queue is IoUring),
            },
            queue.wf(),
            queue.is_fresh(),
            queue.pending() == Seq::<Waker>::empty(),
    {
        let supported = supports_io_uring_futex(cache, probe);
        WaiterQueue::with_support(supported)
    }

    /// Reads the counter that waiters sleep on.
    pub fn get_futex(&self) -> (generation: Option<u32>)
        ensures
            generation == self.generation(),
    {
        match self {
            WaiterQueue::IoUring(queue) => Some(queue.get_futex()),
            WaiterQueue::Generic(_) => None,
        }
    }

    /// Checks `condition` and registers the caller unless it holds, as the
    /// backend in use does.
    pub fn add_waiter_if<F: Fn() -> bool>(&mut self, condition: F, handle: Waker) -> (suspension:
        Suspension)
        requires
            old(self).wf(),
            condition.requires(()),
        ensures
            final(self).wf(),
            exists|first: bool, second: bool| #[trigger]
                checks_allowed(condition, first, second) && (first ==> !second) && (suspension
                    is Ready <==> first || second) && suspension == old(self).suspension_after(
                    first,
                    second,
                ) && old(self).registered(*final(self), handle, first, second),
            final(self).pending() == after_registration(old(self).pending(), handle, suspension),
    {
        match self {
            WaiterQueue::IoUring(queue) => {
                let ghost before = *queue;
                let suspension = IoUringWaiterQueue::add_waiter_if(queue, condition);
                proof {
                    let held = choose|held: bool| #[trigger]
                        condition.ensures((), held) && suspension == before.suspension_for(held)
                            && queue.generation() == before.generation_after(held);
                    assert(checks_allowed(condition, held, false));
                }
                suspension
            },
            WaiterQueue::Generic(queue) => GenericWaiterQueue::add_waiter_if(
                queue,
                condition,
                handle,
            ),
        }
    }

    /// Takes one waiter out to be resumed: the portable queue hands back the
    /// oldest pending handle, the kernel-backed one the operation to submit.
    pub fn wake_one(&mut self) -> (wake: Woken)
        requires
            old(self).wf(),
        ensures
            final(self).wf(),
            old(self).woke_one(*final(self)),
            final(self).pending() == after_wake_one(old(self).pending()),
            wake.handles@ == handles_of(woken_by_wake_one(old(self).pending())),
            wake.signals@ == old(self).signals_for_one(),
    {
        match self {
            WaiterQueue::IoUring(queue) => Woken::of_signal(
                Signal::Futex(IoUringWaiterQueue::wake_one(queue)),
            ),
            WaiterQueue::Generic(queue) => GenericWaiterQueue::wake_one(queue),
        }
    }

    /// Takes every waiter out to be resumed.
    pub fn wake_all(&mut self) -> (wake: Woken)
        requires
            old(self).wf(),
        ensures
            final(self).wf(),
            old(self).woke_all(*final(self)),
            final(self).pending() == Seq::<Waker>::empty(),
            wake.handles@ == old(self).pending(),
            wake.signals@ == old(self).signals_for_all(),
    {
        match self {
            WaiterQueue::IoUring(queue) => Woken::of_signal(
                Signal::Futex(IoUringWaiterQueue::wake_all(queue)),
            ),
            WaiterQueue::Generic(queue) => GenericWaiterQueue::wake_all(queue),
        }
    }

    /// Withdraws a registration whose task gave up waiting. A task that
    /// sleeps in the kernel is withdrawn by the runtime, not here.
    pub fn withdraw(&mut self, suspension: Suspension)
        requires
            old(self).wf(),
        ensures
            final(self).wf(),
            old(self).withdrew(*final(self), suspension),
            final(self).pending() == old(self).after_withdrawal(suspension),
    {
        match self {
            WaiterQueue::IoUring(_) => {},
            WaiterQueue::Generic(queue) => GenericWaiterQueue::withdraw(queue, suspension),
        }
    }

    /// The portable queue's count of its waiters; `None` while the
    /// kernel-backed queue is in use.
    pub fn waiter_count(&self) -> (count: Option<usize>)
        requires
            self.wf(),
        ensures
            count == (if self.counts_waiters() {
                Some(self.counted() as usize)
            } else {
                None
            }),
            self.counted() <= usize::MAX,
    {
        match self {
            WaiterQueue::IoUring(queue) => IoUringWaiterQueue::waiter_count(queue),
            WaiterQueue::Generic(queue) => Some(GenericWaiterQueue::waiter_count(queue)),
        }
    }
}

impl WaiterQueueTrait for WaiterQueue {
    open spec fn wf(&self) -> bool {
        WaiterQueue::wf(self)
    }

    open spec fn pending(&self) -> Seq<Waker> {
        WaiterQueue::pending(self)
    }

    open spec fn counts_waiters(&self) -> bool {
        WaiterQueue::counts_waiters(self)
    }

    open spec fn counted(&self) -> nat {
        WaiterQueue::counted(self)
    }

    open spec fn after_withdrawal(&self, suspension: Suspension) -> Seq<Waker> {
        WaiterQueue::after_withdrawal(self, suspension)
    }

    open spec fn suspension_after(&self, first: bool, second: bool) -> Suspension {
        WaiterQueue::suspension_after(self, first, second)
    }

    open spec fn signals_for_one(&self) -> Seq<Signal> {
        WaiterQueue::signals_for_one(self)
    }

    open spec fn signals_for_all(&self) -> Seq<Signal> {
        WaiterQueue::signals_for_all(self)
    }

    open spec fn is_fresh(&self) -> bool {
        WaiterQueue::is_fresh(self)
    }

    open spec fn registered(&self, after: Self, handle: Waker, first: bool, second: bool) -> bool {
        WaiterQueue::registered(self, after, handle, first, second)
    }

    open spec fn woke_one(&self, after: Self) -> bool {
        WaiterQueue::woke_one(self, after)
    }

    open spec fn woke_all(&self, after: Self) -> bool {
        WaiterQueue::woke_all(self, after)
    }

    open spec fn withdrew(&self, after: Self, suspension: Suspension) -> bool {
        WaiterQueue::withdrew(self, after, suspension)
    }

    fn new() -> (queue: Self) {
        WaiterQueue::new()
    }

    fn add_waiter_if<F: Fn() -> bool>(&mut self, condition: F, handle: Waker) -> (suspension:
        Suspension) {
        WaiterQueue::add_waiter_if(self, condition, handle)
    }

    fn wake_one(&mut self) -> (wake: Woken) {
        WaiterQueue::wake_one(self)
    }

    fn wake_all(&mut self) -> (wake: Woken) {
        WaiterQueue::wake_all(self)
    }

    fn withdraw(&mut self, suspension: Suspension) {
        WaiterQueue::withdraw(self, suspension)
    }

    fn waiter_count(&self) -> (count: Option<usize>) {
        WaiterQueue::waiter_count(self)
    }
}

} // verus!
