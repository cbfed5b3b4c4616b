//! The completion-port backend: waiters sleep on an event object that the
//! caller owns, and the queue keeps the count of them.

use crate::waiter_queue::generic::{suspension_after_registration, WaiterQueue as GenericWaiterQueue};
use crate::waiter_queue::{
    after_registration, after_wake_one, checks_allowed, handles_of, woken_by_wake_one, Capability,
    Signal, Suspension, Woken, WaiterQueueTrait,
};
use std::task::Waker;
use vstd::prelude::*;

verus! {

/// Whether the platform offers waiting on an event through the completion
/// port. `cache` is the process-wide answer; `probe` asks the system and runs
/// only on the first call.
pub fn supports_wait_on_address<P: FnOnce() -> bool>(cache: &mut Capability, probe: P) -> (supported:
    bool)
    requires
        probe.requires(()),
    ensures
        final(cache).known() == Some(supported),
        match old(cache).known() {
            Some(cached) => supported == cached,
            None => probe.ensures((), supported),
        },
{
    cache.resolve(probe)
}

/// The record after one wake: one waiter less, as long as there is one.
pub open spec fn record_after_wake_one(count: nat) -> nat {
    if count > 0 {
        (count - 1) as nat
    } else {
        0
    }
}

/// The event-backed queue. It stores no handle: it counts the waiters that
/// sleep on the event.
pub struct WaitOnAddressQueue {
    waiter_count: usize,
}

impl WaitOnAddressQueue {
    /// The number of waiters on record.
    pub closed spec fn count(&self) -> nat {
        self.waiter_count as nat
    }

    /// A queue with no waiter on record.
    pub fn new() -> (queue: Self)
        ensures
            queue.count() == 0,
    {
        WaitOnAddressQueue { waiter_count: 0 }
    }

    /// How a registration ends whose check of the condition gave `held`.
    pub open spec fn suspension_for(held: bool) -> Suspension {
        if held {
            Suspension::Ready
        } else {
            Suspension::Event
        }
    }

    /// A registration, for a caller that has just checked the condition and
    /// found `held`: unless it held, the caller has to sleep on the event.
    pub fn suspend_unless(&self, held: bool) -> (suspension: Suspension)
        ensures
            suspension == Self::suspension_for(held),
    {
        if held {
            return Suspension::Ready;
        }
        Suspension::Event
    }

    /// Checks `condition` once and registers the caller unless it holds, as
    /// `suspend_unless` says.
    pub fn add_waiter_if<F: Fn() -> bool>(&self, condition: F) -> (suspension: Suspension)
        requires
            condition.requires(()),
        ensures
            exists|held: bool| #[trigger]
                condition.ensures((), held) && suspension == Self::suspension_for(held),
    {
        let held = condition();
        self.suspend_unless(held)
    }

    /// Takes one waiter off the record, if there is one; the caller signals
    /// the event.
    pub fn wake_one(&mut self)
        ensures
            final(self).count() == record_after_wake_one(old(self).count()),
    {
        if self.waiter_count > 0 {
            self.waiter_count = self.waiter_count - 1;
        }
    }

    /// Takes every waiter off the record; the caller signals the event.
    pub fn wake_all(&mut self)
        ensures
            final(self).count() == 0,
    {
        self.waiter_count = 0;
    }

    /// The number of waiters on record.
    pub fn waiter_count(&self) -> (count: usize)
        ensures
            count == self.count(),
    {
        self.waiter_count
    }
}

impl WaiterQueueTrait for WaitOnAddressQueue {
    open spec fn wf(&self) -> bool {
        true
    }

    open spec fn pending(&self) -> Seq<Waker> {
        Seq::empty()
    }

    open spec fn counts_waiters(&self) -> bool {
        true
    }

    open spec fn counted(&self) -> nat {
        self.count()
    }

    open spec fn after_withdrawal(&self, suspension: Suspension) -> Seq<Waker> {
        Seq::empty()
    }

    open spec fn suspension_after(&self, first: bool, second: bool) -> Suspension {
        Self::suspension_for(first || second)
    }

    open spec fn signals_for_one(&self) -> Seq<Signal> {
        seq![Signal::Event]
    }

    open spec fn signals_for_all(&self) -> Seq<Signal> {
        seq![Signal::Event]
    }

    open spec fn is_fresh(&self) -> bool {
        self.count() == 0
    }

    open spec fn registered(&self, after: Self, handle: Waker, first: bool, second: bool) -> bool {
        after.count() == self.count()
    }

    open spec fn woke_one(&self, after: Self) -> bool {
        after.count() == record_after_wake_one(self.count())
    }

    open spec fn woke_all(&self, after: Self) -> bool {
        after.count() == 0
    }

    open spec fn withdrew(&self, after: Self, suspension: Suspension) -> bool {
        after.count() == self.count()
    }

    fn new() -> (queue: Self) {
        WaitOnAddressQueue::new()
    }

    fn add_waiter_if<F: Fn() -> bool>(&mut self, condition: F, handle: Waker) -> (suspension:
        Suspension) {
        let suspension = WaitOnAddressQueue::add_waiter_if(self, condition);
        proof {
            let held = choose|held: bool| #[trigger]
                condition.ensures((), held) && suspension == Self::suspension_for(held);
            assert(checks_allowed(condition, held, false));
        }
        suspension
    }

    fn wake_one(&mut self) -> (wake: Woken) {
        WaitOnAddressQueue::wake_one(self);
        Woken::of_signal(Signal::Event)
    }

    fn wake_all(&mut self) -> (wake: Woken) {
        WaitOnAddressQueue::wake_all(self);
        Woken::of_signal(Signal::Event)
    }

    fn withdraw(&mut self, suspension: Suspension) {
    }

    fn waiter_count(&self) -> (count: Option<usize>) {
        Some(WaitOnAddressQueue::waiter_count(self))
    }
}

/// The queue of this platform: the event-backed one where the system
/// supports it, the portable one elsewhere.
pub enum WaiterQueue {
    /// Waiters sleep on an event object.
    WaitOnAddress(WaitOnAddressQueue),
    /// Waiters' handles are stored in the queue.
    Generic(GenericWaiterQueue),
}

impl WaiterQueue {
    /// The invariant of the backend in use.
    pub open spec fn wf(&self) -> bool {
        match self {
            WaiterQueue::WaitOnAddress(_) => true,
            WaiterQueue::Generic(queue) => queue.wf(),
        }
    }

    /// The handles that the queue stores.
    pub open spec fn pending(&self) -> Seq<Waker> {
        match self {
            WaiterQueue::WaitOnAddress(_) => Seq::empty(),
            WaiterQueue::Generic(queue) => queue.pending(),
        }
    }

    /// The event-backed queue's record of waiters, where it is in use.
    pub open spec fn recorded(&self) -> Option<nat> {
        match self {
            WaiterQueue::WaitOnAddress(queue) => Some(queue.count()),
            WaiterQueue::Generic(_) => None,
        }
    }

    /// The queue is as it was made.
    pub open spec fn is_fresh(&self) -> bool {
        match self {
            WaiterQueue::WaitOnAddress(queue) => queue.count() == 0,
            WaiterQueue::Generic(queue) => queue.is_fresh(),
        }
    }

    /// How a registration ends whose checks of the condition give `first`
    /// and `second`.
    pub open spec fn suspension_after(&self, first: bool, second: bool) -> Suspension {
        match self {
            WaiterQueue::WaitOnAddress(_) => WaitOnAddressQueue::suspension_for(first || second),
            WaiterQueue::Generic(queue) => suspension_after_registration(
                queue.mode(),
                queue.next_ticket(),
                first,
                second,
            ),
        }
    }

    /// `after` is this queue after a registration of `handle` whose checks of
    /// the condition gave `first` and `second`.
    pub open spec fn registered(&self, after: Self, handle: Waker, first: bool, second: bool) -> bool {
        match (self, after) {
            (WaiterQueue::WaitOnAddress(queue), WaiterQueue::WaitOnAddress(next)) => next.count()
                == queue.count(),
            (WaiterQueue::Generic(queue), WaiterQueue::Generic(next)) => queue.registered(
                next,
                handle,
                first,
                second,
            ),
            _ => false,
        }
    }

    /// `after` is this queue after `wake_one`.
    pub open spec fn woke_one(&self, after: Self) -> bool {
        match (self, after) {
            (WaiterQueue::WaitOnAddress(queue), WaiterQueue::WaitOnAddress(next)) => next.count()
                == record_after_wake_one(queue.count()),
            (WaiterQueue::Generic(queue), WaiterQueue::Generic(next)) => queue.woke_one(next),
            _ => false,
        }
    }

    /// `after` is this queue after `wake_all`.
    pub open spec fn woke_all(&self, after: Self) -> bool {
        match (self, after) {
            (WaiterQueue::WaitOnAddress(_), WaiterQueue::WaitOnAddress(next)) => next.count() == 0,
            (WaiterQueue::Generic(queue), WaiterQueue::Generic(next)) => queue.woke_all(next),
            _ => false,
        }
    }

    /// `after` is this queue after `withdraw(suspension)`.
    pub open spec fn withdrew(&self, after: Self, suspension: Suspension) -> bool {
        match (self, after) {
            (WaiterQueue::WaitOnAddress(queue), WaiterQueue::WaitOnAddress(next)) => next.count()
                == queue.count(),
            (WaiterQueue::Generic(queue), WaiterQueue::Generic(next)) => queue.withdrew(
                next,
                suspension,
            ),
            _ => false,
        }
    }

    /// The signals that a wake leaves for the caller to deliver.
    pub open spec fn signals_for_wake(&self) -> Seq<Signal> {
        match self {
            WaiterQueue::WaitOnAddress(_) => seq![Signal::Event],
            WaiterQueue::Generic(_) => Seq::empty(),
        }
    }

    /// The pending handles after withdrawing a registration.
    pub open spec fn after_withdrawal(&self, suspension: Suspension) -> Seq<Waker> {
        match self {
            WaiterQueue::WaitOnAddress(_) => Seq::empty(),
            WaiterQueue::Generic(queue) => queue.after_withdrawal(suspension),
        }
    }

    /// What `waiter_count` reports.
    pub open spec fn counted(&self) -> nat {
        match self {
            WaiterQueue::WaitOnAddress(queue) => queue.count(),
            WaiterQueue::Generic(queue) => queue.pending().len(),
        }
    }

    /// The portable queue. It is right on every system; [`Self::with_support`]
    /// and [`Self::probed`] choose by the platform's capability.
    pub fn new() -> (queue: Self)
        ensures
            queue is Generic,
            queue.wf(),
            queue.is_fresh(),
            queue.pending() == Seq::<Waker>::empty(),
    {
        WaiterQueue::Generic(GenericWaiterQueue::new())
    }

    /// The event-backed queue if `supported`, else the portable one.
    pub fn with_support(supported: bool) -> (queue: Self)
        ensures
            supported <==> queue is WaitOnAddress,
            queue.wf(),
            queue.is_fresh(),
            queue.pending() == Seq::<Waker>::empty(),
    {
        if supported {
            WaiterQueue::WaitOnAddress(WaitOnAddressQueue::new())
        } else {
            WaiterQueue::Generic(GenericWaiterQueue::new())
        }
    }

    /// Chooses the backend by the cached capability, probing on first use.
    pub fn probed<P: FnOnce() -> bool>(cache: &mut Capability, probe: P) -> (queue: Self)
        requires
            probe.requires(()),
        ensures
            final(cache).known() == Some(queue is WaitOnAddress),
            match old(cache).known() {
                Some(cached) => cached == (queue is WaitOnAddress),
                None => probe.ensures((), queue is WaitOnAddress),
            },
            queue.wf(),
            queue.is_fresh(),
            queue.pending() == Seq::<Waker>::empty(),
    {
        let supported = supports_wait_on_address(cache, probe);
        WaiterQueue::with_support(supported)
    }

    /// Checks `condition` and registers the caller unless it holds, as the
    /// backend in use does.
    pub fn add_waiter_if<F: Fn() -> bool>(&mut self, condition: F, handle: Waker) -> (suspension:
        Suspension)
        requires
            old(self).wf(),
            condition.requires(()),
        ensures
            final(self).wf(),
            exists|first: bool, second: bool| #[trigger]
                checks_allowed(condition, first, second) && (first ==> !second) && (suspension
                    is Ready <==> first || second) && suspension == old(self).suspension_after(
                    first,
                    second,
                ) && old(self).registered(*final(self), handle, first, second),
            final(self).pending() == after_registration(old(self).pending(), handle, suspension),
    {
        match self {
            WaiterQueue::WaitOnAddress(queue) => {
                let suspension = WaitOnAddressQueue::add_waiter_if(queue, condition);
                proof {
                    let held = choose|held: bool| #[trigger]
                        condition.ensures((), held) && suspension
                            == WaitOnAddressQueue::suspension_for(held);
                    assert(checks_allowed(condition, held, false));
                }
                suspension
            },
            WaiterQueue::Generic(queue) => GenericWaiterQueue::add_waiter_if(
                queue,
                condition,
                handle,
            ),
        }
    }

    /// Takes one waiter out to be resumed: the portable queue hands back the
    /// oldest pending handle, the event-backed one asks for the event to be
    /// signalled.
    pub fn wake_one(&mut self) -> (wake: Woken)
        requires
            old(self).wf(),
        ensures
            final(self).wf(),
            old(self).woke_one(*final(self)),
            final(self).pending() == after_wake_one(old(self).pending()),
            wake.handles@ == handles_of(woken_by_wake_one(old(self).pending())),
            wake.signals@ == old(self).signals_for_wake(),
    {
        match self {
            WaiterQueue::WaitOnAddress(queue) => {
                WaitOnAddressQueue::wake_one(queue);
                Woken::of_signal(Signal::Event)
            },
            WaiterQueue::Generic(queue) => GenericWaiterQueue::wake_one(queue),
        }
    }

    /// Takes every waiter out to be resumed.
    pub fn wake_all(&mut self) -> (wake: Woken)
        requires
            old(self).wf(),
        ensures
            final(self).wf(),
            old(self).woke_all(*final(self)),
            final(self).pending() == Seq::<Waker>::empty(),
            wake.handles@ == old(self).pending(),
            wake.signals@ == old(self).signals_for_wake(),
    {
        match self {
            WaiterQueue::WaitOnAddress(queue) => {
                WaitOnAddressQueue::wake_all(queue);
                Woken::of_signal(Signal::Event)
            },
            WaiterQueue::Generic(queue) => GenericWaiterQueue::wake_all(queue),
        }
    }

    /// Withdraws a registration whose task gave up waiting. A task that
    /// sleeps on the event is withdrawn by the runtime, not here.
    pub fn withdraw(&mut self, suspension: Suspension)
        requires
            old(self).wf(),
        ensures
            final(self).wf(),
            old(self).withdrew(*final(self), suspension),
            final(self).pending() == old(self).after_withdrawal(suspension),
    {
        match self {
            WaiterQueue::WaitOnAddress(_) => {},
            WaiterQueue::Generic(queue) => GenericWaiterQueue::withdraw(queue, suspension),
        }
    }

    /// The number of waiters that the backend in use knows of.
    pub fn waiter_count(&self) -> (count: usize)
        requires
            self.wf(),
        ensures
            count == self.counted(),
    {
        match self {
            WaiterQueue::WaitOnAddress(queue) => queue.waiter_count(),
            WaiterQueue::Generic(queue) => queue.waiter_count(),
        }
    }
}

impl WaiterQueueTrait for WaiterQueue {
    open spec fn wf(&self) -> bool {
        WaiterQueue::wf(self)
    }

    open spec fn pending(&self) -> Seq<Waker> {
        WaiterQueue::pending(self)
    }

    open spec fn counts_waiters(&self) -> bool {
        true
    }

    open spec fn counted(&self) -> nat {
        WaiterQueue::counted(self)
    }

    open spec fn after_withdrawal(&self, suspension: Suspension) -> Seq<Waker> {
        WaiterQueue::after_withdrawal(self, suspension)
    }

    open spec fn suspension_after(&self, first: bool, second: bool) -> Suspension {
        WaiterQueue::suspension_after(self, first, second)
    }

    open spec fn signals_for_one(&self) -> Seq<Signal> {
        WaiterQueue::signals_for_wake(self)
    }

    open spec fn signals_for_all(&self) -> Seq<Signal> {
        WaiterQueue::signals_for_wake(self)
    }

    open spec fn is_fresh(&self) -> bool {
        WaiterQueue::is_fresh(self)
    }

    open spec fn registered(&self, after: Self, handle: Waker, first: bool, second: bool) -> bool {
        WaiterQueue::registered(self, after, handle, first, second)
    }

    open spec fn woke_one(&self, after: Self) -> bool {
        WaiterQueue::woke_one(self, after)
    }

    open spec fn woke_all(&self, after: Self) -> bool {
        WaiterQueue::woke_all(self, after)
    }

    open spec fn withdrew(&self, after: Self, suspension: Suspension) -> bool {
        WaiterQueue::withdrew(self, after, suspension)
    }

    fn new() -> (queue: Self) {
        WaiterQueue::new()
    }

    fn add_waiter_if<F: Fn() -> bool>(&mut self, condition: F, handle: Waker) -> (suspension:
        Suspension) {
        WaiterQueue::add_waiter_if(self, condition, handle)
    }

    fn wake_one(&mut self) -> (wake: Woken) {
        WaiterQueue::wake_one(self)
    }

    fn wake_all(&mut self) -> (wake: Woken) {
        WaiterQueue::wake_all(self)
    }

    fn withdraw(&mut self, suspension: Suspension) {
        WaiterQueue::withdraw(self, suspension)
    }

    fn waiter_count(&self) -> (count: Option<usize>) {
        Some(WaiterQueue::waiter_count(self))
    }
}

} // verus!
