//! A counting semaphore for cooperatively scheduled tasks.
//!
//! The semaphore is a counter of available permits beside a queue of the
//! tasks that wait for one. The two are independent: a wake tells a waiter
//! only that it should try again.

use crate::waiter_queue::generic::WaiterQueue as GenericWaiterQueue;
use crate::waiter_queue::{
    after_registration, after_wake_one, after_wakes, checks_allowed, handles_of,
    lemma_wakes_resume_oldest, repeated, woke_many, woken_by_wake_one, woken_by_wakes, Suspension,
    Woken, WaiterQueueTrait,
};
use std::task::Waker;
use vstd::prelude::*;

verus! {

/// The available permits after an attempt to take one.
pub open spec fn after_try_acquire(available: nat) -> nat {
    if available > 0 {
        (available - 1) as nat
    } else {
        available
    }
}

/// How many permits a reduction by `count` removes: all that it asks for, as
/// far as they are available.
pub open spec fn reduction(available: nat, count: nat) -> nat {
    if available < count {
        available
    } else {
        count
    }
}

/// One checked-out unit of a semaphore's capacity. It is made only by a
/// successful acquisition and is consumed by `release`.
pub struct SemaphorePermit {
    _private: (),
}

/// How an attempt to acquire a permit for a task ended.
pub enum Acquisition {
    /// A permit was available and is now checked out.
    Acquired(SemaphorePermit),
    /// None was available. The task is registered as a waiter and must try
    /// again once it is resumed.
    Suspended(Suspension),
}

impl Acquisition {
    /// How the task was suspended, if it was.
    pub open spec fn suspension(self) -> Option<Suspension> {
        match self {
            Acquisition::Acquired(_) => None,
            Acquisition::Suspended(suspension) => Some(suspension),
        }
    }
}

/// A counting semaphore over a waiter queue of type `W`.
pub struct SemaphoreGeneric<W: WaiterQueueTrait> {
    permits: usize,
    max_permits: usize,
    waiters: W,
}

/// The semaphore over the portable waiter queue.
pub type Semaphore = SemaphoreGeneric<GenericWaiterQueue>;

impl<W: WaiterQueueTrait> SemaphoreGeneric<W> {
    /// The permits that can be acquired now.
    pub closed spec fn available(&self) -> nat {
        self.permits as nat
    }

    /// The capacity the semaphore was made with.
    pub closed spec fn max(&self) -> nat {
        self.max_permits as nat
    }

    /// The queue of waiting tasks.
    pub closed spec fn queue(&self) -> W {
        self.waiters
    }

    /// The handles of the waiting tasks, oldest first.
    pub open spec fn waiting(&self) -> Seq<Waker> {
        self.queue().pending()
    }

    /// The counter is within `[0, max]`, the capacity is positive and the
    /// queue is in order.
    pub open spec fn wf(&self) -> bool {
        &&& 0 < self.max()
        &&& self.available() <= self.max()
        &&& self.queue().wf()
    }

    /// A semaphore with `permits` permits, all available, and no waiter.
    pub fn new(permits: usize) -> (semaphore: Self)
        requires
            permits > 0,
        ensures
            semaphore.wf(),
            semaphore.available() == permits,
            semaphore.max() == permits,
            semaphore.queue().is_fresh(),
            semaphore.waiting() == Seq::<Waker>::empty(),
    {
        SemaphoreGeneric { permits, max_permits: permits, waiters: W::new() }
    }

    /// A semaphore with `permits` permits, all available, over the queue
    /// `waiters`.
    pub fn with_waiters(permits: usize, waiters: W) -> (semaphore: Self)
        requires
            permits > 0,
            waiters.wf(),
        ensures
            semaphore.wf(),
            semaphore.available() == permits,
            semaphore.max() == permits,
            semaphore.queue() == waiters,
    {
        SemaphoreGeneric { permits, max_permits: permits, waiters }
    }

    /// Takes a permit if one is available. Never registers a waiter.
    pub fn try_acquire(&mut self) -> (permit: Option<SemaphorePermit>)
        requires
            old(self).wf(),
        ensures
            final(self).wf(),
            permit is Some <==> old(self).available() > 0,
            final(self).available() == after_try_acquire(old(self).available()),
            final(self).max() == old(self).max(),
            final(self).queue() == old(self).queue(),
    {
        let current = self.permits;
        if current == 0 {
            return None;
        }
        self.permits = current - 1;
        Some(SemaphorePermit { _private: () })
    }

    /// One turn of a task's loop for a permit: takes one if it is available;
    /// else registers `handle` as a waiter, whatever the counter does in
    /// between, so that the task is resumed by the next release and tries
    /// again.
    pub fn acquire(&mut self, handle: Waker) -> (acquisition: Acquisition)
        requires
            old(self).wf(),
        ensures
            final(self).wf(),
            final(self).max() == old(self).max(),
            final(self).available() == after_try_acquire(old(self).available()),
            old(self).available() > 0 ==> acquisition is Acquired && final(self).queue() == old(
                self,
            ).queue(),
            old(self).available() == 0 ==> acquisition.suspension() == Some(
                old(self).queue().suspension_after(false, false),
            ),
            old(self).available() == 0 ==> old(self).queue().suspension_after(
                false,
                false,
            ).is_pending(),
            old(self).available() == 0 ==> old(self).queue().registered(
                final(self).queue(),
                handle,
                false,
                false,
            ),
            old(self).available() == 0 ==> final(self).waiting() == after_registration(
                old(self).waiting(),
                handle,
                old(self).queue().suspension_after(false, false),
            ),
    {
        if let Some(permit) = self.try_acquire() {
            return Acquisition::Acquired(permit);
        }
        let never = || -> (held: bool)
            ensures
                !held,
            { false };
        let suspension = self.waiters.add_waiter_if(never, handle);
        proof {
            let (first, second) = choose|first: bool, second: bool| #[trigger]
                checks_allowed(never, first, second) && (suspension is Ready <==> first || second)
                    && suspension == old(self).queue().suspension_after(first, second) && old(
                    self,
                ).queue().registered(self.queue(), handle, first, second);
            assert(!first && !second);
        }
        Acquisition::Suspended(suspension)
    }

    /// The permits that can be acquired now.
    pub fn available_permits(&self) -> (available: usize)
        ensures
            available == self.available(),
    {
        self.permits
    }

    /// The capacity the semaphore was made with.
    pub fn max_permits(&self) -> (max: usize)
        ensures
            max == self.max(),
    {
        self.max_permits
    }

    /// The permits that are not available: checked out or removed by
    /// `reduce_permits`.
    pub fn in_use(&self) -> (in_use: usize)
        requires
            self.wf(),
        ensures
            in_use == self.max() - self.available(),
            in_use + self.available() == self.max(),
    {
        self.max_permits - self.permits
    }

    /// Removes up to `count` permits from the available ones, stopping at
    /// zero, and says how many it removed. Permits that are checked out are
    /// not touched.
    pub fn reduce_permits(&mut self, count: usize) -> (reduced: usize)
        requires
            old(self).wf(),
        ensures
            final(self).wf(),
            reduced == reduction(old(self).available(), count as nat),
            final(self).available() == old(self).available() - reduced,
            final(self).max() == old(self).max(),
            final(self).queue() == old(self).queue(),
    {
        let current = self.permits;
        let to_reduce = if current < count {
            current
        } else {
            count
        };
        self.permits = current - to_reduce;
        to_reduce
    }

    /// Puts `count` permits back among the available ones and takes one
    /// waiter out of the queue for each, oldest first. The result holds their
    /// handles and, one per permit, the signals that the queue leaves to
    /// deliver.
    pub fn add_permits(&mut self, count: usize) -> (wake: Woken)
        requires
            old(self).wf(),
            old(self).available() + count <= old(self).max(),
        ensures
            final(self).wf(),
            final(self).available() == old(self).available() + count,
            final(self).max() == old(self).max(),
            woke_many(old(self).queue(), final(self).queue(), count as nat),
            final(self).waiting() == after_wakes(old(self).waiting(), count as nat),
            wake.handles@ == woken_by_wakes(old(self).waiting(), count as nat),
            wake.signals@ == repeated(old(self).queue().signals_for_one(), count as nat),
    {
        self.permits = self.permits + count;
        let mut wake = Woken::new();
        let mut woken: usize = 0;
        while woken < count
            invariant
                woken <= count,
                self.queue().wf(),
                self.permits == old(self).permits + count,
                self.max_permits == old(self).max_permits,
                woke_many(old(self).queue(), self.queue(), woken as nat),
                self.waiting() == after_wakes(old(self).waiting(), woken as nat),
                self.queue().signals_for_one() == old(self).queue().signals_for_one(),
                wake.handles@ == woken_by_wakes(old(self).waiting(), woken as nat),
                wake.signals@ == repeated(old(self).queue().signals_for_one(), woken as nat),
            decreases count - woken,
        {
            proof {
                lemma_one_more_wake(old(self).waiting(), woken as nat);
            }
            let ghost before = self.waiters;
            let next = self.waiters.wake_one();
            assert(woke_many(old(self).queue(), self.queue(), (woken + 1) as nat)) by {
                assert(woke_many(old(self).queue(), before, woken as nat) && before.woke_one(
                    self.queue(),
                ));
            }
            wake.append(next);
            woken = woken + 1;
        }
        wake
    }

    /// Gives a permit back: it becomes available, and then the oldest waiter
    /// is taken out of the queue to be resumed.
    pub fn release(&mut self, permit: SemaphorePermit) -> (wake: Woken)
        requires
            old(self).wf(),
            old(self).available() < old(self).max(),
        ensures
            final(self).wf(),
            final(self).available() == old(self).available() + 1,
            final(self).max() == old(self).max(),
            old(self).queue().woke_one(final(self).queue()),
            final(self).waiting() == after_wake_one(old(self).waiting()),
            wake.handles@ == handles_of(woken_by_wake_one(old(self).waiting())),
            wake.signals@ == old(self).queue().signals_for_one(),
    {
        self.permits = self.permits + 1;
        self.waiters.wake_one()
    }

    /// Withdraws the registration of a task that gave up waiting. The
    /// counter is not touched.
    pub fn cancel(&mut self, suspension: Suspension)
        requires
            old(self).wf(),
        ensures
            final(self).wf(),
            final(self).available() == old(self).available(),
            final(self).max() == old(self).max(),
            old(self).queue().withdrew(final(self).queue(), suspension),
            final(self).waiting() == old(self).queue().after_withdrawal(suspension),
    {
        self.waiters.withdraw(suspension)
    }
}

/// One more wake after `count` wakes is `count + 1` wakes: it resumes the
/// oldest waiter that the `count` wakes left pending.
proof fn lemma_one_more_wake(pending: Seq<Waker>, count: nat)
    ensures
        after_wake_one(after_wakes(pending, count)) == after_wakes(pending, count + 1),
        woken_by_wakes(pending, count + 1) == woken_by_wakes(pending, count) + handles_of(
            woken_by_wake_one(after_wakes(pending, count)),
        ),
    decreases count,
{
    let rest = after_wake_one(pending);
    assert(after_wakes(pending, count + 1) == after_wakes(rest, count));
    if count == 0 {
        assert(woken_by_wakes(rest, 0) =~= Seq::<Waker>::empty());
        assert(woken_by_wakes(pending, 1) =~= woken_by_wakes(pending, 0) + handles_of(
            woken_by_wake_one(pending),
        ));
    } else {
        lemma_one_more_wake(rest, (count - 1) as nat);
        if pending.len() == 0 {
            lemma_wakes_resume_oldest(pending, count);
            assert(woken_by_wakes(pending, count + 1) =~= woken_by_wakes(pending, count)
                + handles_of(woken_by_wake_one(after_wakes(pending, count))));
        } else {
            assert(woken_by_wakes(pending, count + 1) =~= woken_by_wakes(pending, count)
                + handles_of(woken_by_wake_one(after_wakes(pending, count))));
        }
    }
}

/// An operation of a task on a semaphore's permits.
pub enum PermitStep {
    /// An attempt to take a permit; it takes one if any is available.
    Acquire,
    /// The release of a permit that the task holds; without one it does
    /// nothing.
    Release,
}

/// A semaphore's permits: those available and those checked out.
pub struct Permits {
    pub available: nat,
    pub held: nat,
}

/// The permits after one step.
pub open spec fn permits_after(permits: Permits, step: PermitStep) -> Permits {
    match step {
        PermitStep::Acquire => Permits {
            available: after_try_acquire(permits.available),
            held: if permits.available > 0 {
                permits.held + 1
            } else {
                permits.held
            },
        },
        PermitStep::Release => if permits.held > 0 {
            Permits { available: permits.available + 1, held: (permits.held - 1) as nat }
        } else {
            permits
        },
    }
}

/// The permits after a sequence of steps.
pub open spec fn permits_after_all(permits: Permits, steps: Seq<PermitStep>) -> Permits
    decreases steps.len(),
{
    if steps.len() == 0 {
        permits
    } else {
        permits_after(permits_after_all(permits, steps.drop_last()), steps.last())
    }
}

/// Whatever tasks do with a semaphore of `max` permits, acquiring and
/// releasing in any order: the permits available and those checked out add
/// up to `max`, so the available ones stay within `[0, max]` and never more
/// than `max` are checked out at once.
pub proof fn lemma_permits_conserved(max: nat, steps: Seq<PermitStep>)
    ensures
        ({
            let end = permits_after_all(Permits { available: max, held: 0 }, steps);
            &&& end.available + end.held == max
            &&& end.available <= max
            &&& end.held <= max
        }),
    decreases steps.len(),
{
    if steps.len() > 0 {
        lemma_permits_conserved(max, steps.drop_last());
    }
}

/// Putting back as many permits as a reduction removed restores the
/// available ones; a reduction by no more than is available removes all it
/// asks for, so that adding `count` restores them.
pub proof fn lemma_reduce_then_add_restores(available: nat, count: nat)
    ensures
        (available - reduction(available, count)) + reduction(available, count) == available,
        count <= available ==> reduction(available, count) == count,
        count <= available ==> (available - reduction(available, count)) + count == available,
{
}

} // verus!
