//! A condition variable for cooperatively scheduled tasks.
//!
//! The condition variable is a notified flag beside a queue of the tasks that
//! wait for it. A waiter checks the flag through the queue's
//! check-and-register call, so a notification cannot fall between the check
//! and the registration.

use crate::waiter_queue::generic::WaiterQueue as GenericWaiterQueue;
use crate::waiter_queue::{
    after_registration, after_wake_one, checks_allowed, handles_of, woken_by_wake_one, Suspension,
    Woken, WaiterQueueTrait,
};
use std::task::Waker;
use vstd::prelude::*;

verus! {

/// A condition variable over a waiter queue of type `W`.
pub struct CondvarGeneric<W: WaiterQueueTrait> {
    notified: bool,
    waiters: W,
}

/// The condition variable over the portable waiter queue.
pub type Condvar = CondvarGeneric<GenericWaiterQueue>;

impl<W: WaiterQueueTrait> CondvarGeneric<W> {
    /// The notified flag.
    pub closed spec fn notified(&self) -> bool {
        self.notified
    }

    /// The queue of waiting tasks.
    pub closed spec fn queue(&self) -> W {
        self.waiters
    }

    /// The handles of the waiting tasks, oldest first.
    pub open spec fn waiting(&self) -> Seq<Waker> {
        self.queue().pending()
    }

    /// The queue is in order.
    pub open spec fn wf(&self) -> bool {
        self.queue().wf()
    }

    /// A condition variable that is not notified and has no waiter.
    pub fn new() -> (condvar: Self)
        ensures
            condvar.wf(),
            !condvar.notified(),
            condvar.queue().is_fresh(),
            condvar.waiting() == Seq::<Waker>::empty(),
    {
        CondvarGeneric { notified: false, waiters: W::new() }
    }

    /// A condition variable that is not notified, over the queue `waiters`.
    pub fn with_waiters(waiters: W) -> (condvar: Self)
        requires
            waiters.wf(),
        ensures
            condvar.wf(),
            !condvar.notified(),
            condvar.queue() == waiters,
    {
        CondvarGeneric { notified: false, waiters }
    }

    /// Reads the notified flag.
    pub fn is_notified(&self) -> (notified: bool)
        ensures
            notified == self.notified(),
    {
        self.notified
    }

    /// The registration of a task's wait: ends `Ready` exactly if the
    /// condition variable is notified; else the task is registered as a
    /// waiter, and its wait is over once it is resumed. The flag is checked
    /// through the queue's check-and-register call, so no second attempt is
    /// needed.
    pub fn wait(&mut self, handle: Waker) -> (suspension: Suspension)
        requires
            old(self).wf(),
        ensures
            final(self).wf(),
            final(self).notified() == old(self).notified(),
            suspension is Ready <==> old(self).notified(),
            suspension == old(self).queue().suspension_after(old(self).notified(), false),
            old(self).queue().registered(final(self).queue(), handle, old(self).notified(), false),
            final(self).waiting() == after_registration(old(self).waiting(), handle, suspension),
    {
        let notified = self.notified;
        let is_notified = || -> (held: bool)
            ensures
                held == notified,
            { notified };
        let suspension = self.waiters.add_waiter_if(is_notified, handle);
        proof {
            let (first, second) = choose|first: bool, second: bool| #[trigger]
                checks_allowed(is_notified, first, second) && (first ==> !second) && (suspension
                    is Ready <==> first || second) && suspension == old(
                    self,
                ).queue().suspension_after(first, second) && old(self).queue().registered(
                    self.queue(),
                    handle,
                    first,
                    second,
                );
            assert(first == notified);
            assert(!second);
        }
        suspension
    }

    /// Sets the flag, then takes the oldest waiter out of the queue to be
    /// resumed.
    pub fn notify_one(&mut self) -> (wake: Woken)
        requires
            old(self).wf(),
        ensures
            final(self).wf(),
            final(self).notified() == flag_after(old(self).notified(), FlagStep::Notify),
            old(self).queue().woke_one(final(self).queue()),
            final(self).waiting() == after_wake_one(old(self).waiting()),
            wake.handles@ == handles_of(woken_by_wake_one(old(self).waiting())),
            wake.signals@ == old(self).queue().signals_for_one(),
    {
        self.notified = true;
        self.waiters.wake_one()
    }

    /// Sets the flag, then takes every waiter out of the queue to be
    /// resumed.
    pub fn notify_all(&mut self) -> (wake: Woken)
        requires
            old(self).wf(),
        ensures
            final(self).wf(),
            final(self).notified() == flag_after(old(self).notified(), FlagStep::Notify),
            old(self).queue().woke_all(final(self).queue()),
            final(self).waiting() == Seq::<Waker>::empty(),
            wake.handles@ == old(self).waiting(),
            wake.signals@ == old(self).queue().signals_for_all(),
    {
        self.notified = true;
        self.waiters.wake_all()
    }

    /// Resets the flag: from now on a wait suspends again, until the next
    /// notification. Waiters are left as they are.
    pub fn clear(&mut self)
        ensures
            final(self).notified() == flag_after(old(self).notified(), FlagStep::Clear),
            final(self).queue() == old(self).queue(),
    {
        self.notified = false;
    }

    /// A diagnostic count of the waiting tasks, for a queue that can count
    /// them.
    pub fn waiter_count(&self) -> (count: usize)
        requires
            self.wf(),
            self.queue().counts_waiters(),
        ensures
            count == self.queue().counted(),
    {
        match self.waiters.waiter_count() {
            Some(count) => count,
            None => vstd::pervasive::unreached(),
        }
    }

    /// Withdraws the registration of a task that gave up waiting. The flag is
    /// not touched.
    pub fn cancel(&mut self, suspension: Suspension)
        requires
            old(self).wf(),
        ensures
            final(self).wf(),
            final(self).notified() == old(self).notified(),
            old(self).queue().withdrew(final(self).queue(), suspension),
            final(self).waiting() == old(self).queue().after_withdrawal(suspension),
    {
        self.waiters.withdraw(suspension)
    }
}

/// An operation on a condition variable's flag.
pub enum FlagStep {
    /// `notify_one` or `notify_all`.
    Notify,
    /// `clear`.
    Clear,
}

/// The flag after one step: a notification sets it, a clear resets it.
pub open spec fn flag_after(notified: bool, step: FlagStep) -> bool {
    match step {
        FlagStep::Notify => true,
        FlagStep::Clear => false,
    }
}

/// The flag after a sequence of steps.
pub open spec fn flag_after_all(notified: bool, steps: Seq<FlagStep>) -> bool
    decreases steps.len(),
{
    if steps.len() == 0 {
        notified
    } else {
        flag_after(flag_after_all(notified, steps.drop_last()), steps.last())
    }
}

/// The flag is set exactly if a notification came and no clear came after
/// it: once set it stays set until it is cleared, and once cleared a wait
/// suspends until the next notification.
pub proof fn lemma_flag_follows_last_step(notified: bool, steps: Seq<FlagStep>)
    ensures
        steps.len() == 0 ==> flag_after_all(notified, steps) == notified,
        steps.len() > 0 ==> (flag_after_all(notified, steps) <==> steps.last() is Notify),
        flag_after_all(notified, steps.push(FlagStep::Notify).push(FlagStep::Clear)) == false,
{
    let cleared = steps.push(FlagStep::Notify).push(FlagStep::Clear);
    assert(cleared.last() is Clear);
    assert(cleared.len() > 0);
}

} // verus!
