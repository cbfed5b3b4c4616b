//! Queues of suspended tasks: the shared vocabulary of the backends.

pub mod fifo;
pub mod generic;
pub mod linux;
pub mod windows;

use crate::handle::invoke;
use crate::waiter_queue::linux::{FutexWaitOp, FutexWakeOp};
use std::collections::VecDeque;
use std::task::Waker;
use vstd::prelude::*;

verus! {

/// How a call that checks a condition and registers a waiter ended.
#[derive(Debug, Clone, Copy, PartialEq, Eq, Structural)]
pub enum Suspension {
    /// The condition held: nothing was stored, the task goes on at once.
    Ready,
    /// The handle is stored in the queue's lock-free single slot, under this
    /// ticket.
    Single(u64),
    /// The handle is stored in the queue's ordered collection.
    Multi,
    /// The task must submit this operation to the runtime and await it.
    Futex(FutexWaitOp),
    /// The task must await the queue's event object.
    Event,
}

impl Suspension {
    /// The task has to suspend.
    pub open spec fn is_pending(self) -> bool {
        !(self is Ready)
    }

    /// The handle that was passed in is now stored in the queue.
    pub open spec fn is_queued(self) -> bool {
        self is Single || self is Multi
    }
}

/// What a process knows of a platform capability that it probes at most
/// once.
#[derive(Debug, Clone, Copy, PartialEq, Eq, Structural)]
pub enum Capability {
    /// Not probed yet.
    Unknown,
    /// Probed: the platform lacks it.
    Unsupported,
    /// Probed: the platform has it.
    Supported,
}

impl Capability {
    /// The cached answer, `None` before the first probe.
    pub open spec fn known(self) -> Option<bool> {
        match self {
            Capability::Unknown => None,
            Capability::Unsupported => Some(false),
            Capability::Supported => Some(true),
        }
    }

    /// Answers from the cache, or runs `probe` and caches its answer: the
    /// probe runs only while nothing is cached, and what it says once is the
    /// answer from then on.
    pub fn resolve<P: FnOnce() -> bool>(&mut self, probe: P) -> (supported: bool)
        requires
            probe.requires(()),
        ensures
            final(self).known() == Some(supported),
            match old(self).known() {
                Some(cached) => supported == cached,
                None => probe.ensures((), supported),
            },
    {
        match *self {
            Capability::Supported => return true,
            Capability::Unsupported => return false,
            Capability::Unknown => {},
        }
        let supported = probe();
        *self = if supported {
            Capability::Supported
        } else {
            Capability::Unsupported
        };
        supported
    }
}

/// A signal to waiters that sleep outside the queue, for the caller to
/// deliver.
#[derive(Debug, Clone, Copy, PartialEq, Eq, Structural)]
pub enum Signal {
    /// Submit this wake operation to the runtime, or issue it as a direct
    /// system call outside the runtime's execution loop.
    Futex(FutexWakeOp),
    /// Signal the queue's event object.
    Event,
}

/// What a wake operation took out of a queue. The queue is done when the
/// operation returns: the caller first lets go of whatever lock it shares the
/// queue by, then calls [`Woken::resume`] and delivers the signals, so that no
/// handle is invoked under a lock.
#[must_use]
pub struct Woken {
    /// The handles that were removed, oldest first; each is to be invoked.
    pub handles: VecDeque<Waker>,
    /// The signals to deliver, in order.
    pub signals: Vec<Signal>,
}

impl Woken {
    /// Nothing to invoke and nothing to deliver.
    pub fn new() -> (wake: Self)
        ensures
            wake.handles@ == Seq::<Waker>::empty(),
            wake.signals@ == Seq::<Signal>::empty(),
    {
        Woken { handles: VecDeque::new(), signals: Vec::new() }
    }

    /// These handles to invoke, nothing to deliver.
    pub fn of_handles(handles: VecDeque<Waker>) -> (wake: Self)
        ensures
            wake.handles@ == handles@,
            wake.signals@ == Seq::<Signal>::empty(),
    {
        Woken { handles, signals: Vec::new() }
    }

    /// This signal to deliver, nothing to invoke.
    pub fn of_signal(signal: Signal) -> (wake: Self)
        ensures
            wake.handles@ == Seq::<Waker>::empty(),
            wake.signals@ == seq![signal],
    {
        let mut signals = Vec::new();
        signals.push(signal);
        Woken { handles: VecDeque::new(), signals }
    }

    /// Puts what `later` holds behind what `self` holds.
    pub fn append(&mut self, later: Woken)
        ensures
            final(self).handles@ == old(self).handles@ + later.handles@,
            final(self).signals@ == old(self).signals@ + later.signals@,
    {
        let mut later = later;
        self.handles.append(&mut later.handles);
        self.signals.append(&mut later.signals);
    }

    /// Invokes every handle, oldest first, and hands back the signals that
    /// the caller has to deliver.
    pub fn resume(self) -> (signals: Vec<Signal>)
        ensures
            signals@ == self.signals@,
    {
        let Woken { handles, signals } = self;
        let mut handles = handles;
        loop
            decreases handles@.len(),
        {
            match handles.pop_front() {
                Some(handle) => invoke(handle),
                None => break ,
            }
        }
        signals
    }
}

/// What one poll of a waiting task comes to.
#[derive(Debug, Clone, Copy, PartialEq, Eq, Structural)]
pub enum Progress {
    /// The wait is over.
    Ready,
    /// The task stays suspended until its handle is invoked.
    Pending,
    /// The task has to sleep through the backend, as the suspension says.
    Backend(Suspension),
}

/// What a poll comes to whose registration ended as `suspension`.
pub open spec fn progress_of(suspension: Suspension) -> Progress {
    if suspension is Ready {
        Progress::Ready
    } else if suspension.is_queued() {
        Progress::Pending
    } else {
        Progress::Backend(suspension)
    }
}

/// What a waiting task remembers between polls: where its handle is queued,
/// if it is.
pub struct Registration {
    queued: Option<Suspension>,
}

impl Registration {
    /// Where the task's handle is queued.
    pub closed spec fn queued(&self) -> Option<Suspension> {
        self.queued
    }

    /// The state of a task that has not registered.
    pub fn new() -> (registration: Self)
        ensures
            registration.queued() is None,
    {
        Registration { queued: None }
    }

    /// The first half of a poll. A task whose handle was queued by an
    /// earlier poll is done, whatever made the scheduler poll it again: the
    /// answer is `true`, and the registration is forgotten. Otherwise the
    /// answer is `false` and the task goes on to register.
    pub fn resumed(&mut self) -> (done: bool)
        ensures
            done == old(self).queued() is Some,
            final(self).queued() is None,
    {
        let done = self.queued.is_some();
        self.queued = None;
        done
    }

    /// The second half of a poll: takes note of how the registration ended
    /// and says what the poll comes to.
    pub fn record(&mut self, suspension: Suspension) -> (progress: Progress)
        ensures
            progress == progress_of(suspension),
            final(self).queued() == (if suspension.is_queued() {
                Some(suspension)
            } else {
                None
            }),
    {
        match suspension {
            Suspension::Ready => {
                self.queued = None;
                Progress::Ready
            },
            Suspension::Single(_) | Suspension::Multi => {
                self.queued = Some(suspension);
                Progress::Pending
            },
            _ => {
                self.queued = None;
                Progress::Backend(suspension)
            },
        }
    }

    /// The end of a task that gives up: hands out the registration that is
    /// left to withdraw from the queue, if any.
    pub fn cancel(&mut self) -> (left: Option<Suspension>)
        ensures
            left == old(self).queued(),
            final(self).queued() is None,
    {
        let left = self.queued;
        self.queued = None;
        left
    }
}

/// The two evaluations of a condition that a registration may make: `first`
/// before the handle is stored and, only when that was false, `second` after.
pub open spec fn checks_allowed<F: Fn() -> bool>(condition: F, first: bool, second: bool) -> bool {
    condition.ensures((), first) && (first || condition.ensures((), second))
}

/// The pending handles after a registration of `handle` that ended as
/// `suspension`: the handle joins them exactly if it was stored in the queue.
pub open spec fn after_registration(
    pending: Seq<Waker>,
    handle: Waker,
    suspension: Suspension,
) -> Seq<Waker> {
    if suspension.is_queued() {
        pending.push(handle)
    } else {
        pending
    }
}

/// The handle that one wake resumes: the oldest pending one.
pub open spec fn woken_by_wake_one(pending: Seq<Waker>) -> Option<Waker> {
    if pending.len() > 0 {
        Some(pending[0])
    } else {
        None
    }
}

/// The handles to resume after a wake step that removed `popped`.
pub open spec fn handles_of(popped: Option<Waker>) -> Seq<Waker> {
    match popped {
        Some(handle) => seq![handle],
        None => Seq::empty(),
    }
}

/// `signals`, `count` times over.
pub open spec fn repeated(signals: Seq<Signal>, count: nat) -> Seq<Signal>
    decreases count,
{
    if count == 0 {
        Seq::empty()
    } else {
        repeated(signals, (count - 1) as nat) + signals
    }
}

/// The pending handles after one wake.
pub open spec fn after_wake_one(pending: Seq<Waker>) -> Seq<Waker> {
    if pending.len() > 0 {
        pending.drop_first()
    } else {
        pending
    }
}

/// The pending handles after `count` wakes.
pub open spec fn after_wakes(pending: Seq<Waker>, count: nat) -> Seq<Waker>
    decreases count,
{
    if count == 0 {
        pending
    } else {
        after_wakes(after_wake_one(pending), (count - 1) as nat)
    }
}

/// The handles that `count` wakes resume, in the order of the wakes.
pub open spec fn woken_by_wakes(pending: Seq<Waker>, count: nat) -> Seq<Waker>
    decreases count,
{
    if count == 0 {
        Seq::empty()
    } else {
        match woken_by_wake_one(pending) {
            Some(handle) => seq![handle] + woken_by_wakes(
                after_wake_one(pending),
                (count - 1) as nat,
            ),
            None => Seq::empty(),
        }
    }
}

/// `after` is `before` after `count` calls of `wake_one`.
pub open spec fn woke_many<W: WaiterQueueTrait>(before: W, after: W, count: nat) -> bool
    decreases count,
{
    if count == 0 {
        before == after
    } else {
        exists|middle: W|
            woke_many(before, middle, (count - 1) as nat) && #[trigger] middle.woke_one(after)
    }
}

/// What every backend of the waiter queue offers.
///
/// `pending` is the sequence of handles that the queue itself stores, oldest
/// first. A backend whose waiters sleep in the kernel stores none: it hands
/// the caller the operation to submit instead.
pub trait WaiterQueueTrait: Sized {
    /// The queue's invariant.
    spec fn wf(&self) -> bool;

    /// The handles stored in the queue, in the order in which wakes resume
    /// them.
    spec fn pending(&self) -> Seq<Waker>;

    /// Whether the backend can count its waiters.
    spec fn counts_waiters(&self) -> bool;

    /// What `waiter_count` reports.
    spec fn counted(&self) -> nat;

    /// The pending handles after withdrawing a registration that had ended as
    /// `suspension`.
    spec fn after_withdrawal(&self, suspension: Suspension) -> Seq<Waker>;

    /// How a registration ends whose checks of the condition, before and
    /// after storing the handle, give `first` and `second`.
    spec fn suspension_after(&self, first: bool, second: bool) -> Suspension;

    /// The signals that `wake_one` leaves for the caller to deliver.
    spec fn signals_for_one(&self) -> Seq<Signal>;

    /// The signals that `wake_all` leaves for the caller to deliver.
    spec fn signals_for_all(&self) -> Seq<Signal>;

    /// The queue is as `new` makes it.
    spec fn is_fresh(&self) -> bool;

    /// `after` is this queue after a registration of `handle` whose checks of
    /// the condition gave `first` and `second`.
    spec fn registered(&self, after: Self, handle: Waker, first: bool, second: bool) -> bool;

    /// `after` is this queue after `wake_one`.
    spec fn woke_one(&self, after: Self) -> bool;

    /// `after` is this queue after `wake_all`.
    spec fn woke_all(&self, after: Self) -> bool;

    /// `after` is this queue after withdrawing a registration that had ended
    /// as `suspension`.
    spec fn withdrew(&self, after: Self, suspension: Suspension) -> bool;

    /// A queue without waiters.
    fn new() -> (queue: Self)
        ensures
            queue.wf(),
            queue.is_fresh(),
            queue.pending() == Seq::<Waker>::empty(),
    ;

    /// Checks `condition` and registers the caller as a waiter unless it
    /// holds. The call ends `Ready` exactly if an evaluation of the condition
    /// gave `true`; whenever it ends otherwise, the last evaluation, made after
    /// any handle was stored, gave `false`.
    fn add_waiter_if<F: Fn() -> bool>(&mut self, condition: F, handle: Waker) -> (suspension:
        Suspension)
        requires
            old(self).wf(),
            condition.requires(()),
        ensures
            final(self).wf(),
            exists|first: bool, second: bool| #[trigger]
                checks_allowed(condition, first, second) && (first ==> !second) && (suspension
                    is Ready <==> first || second) && suspension == old(self).suspension_after(
                    first,
                    second,
                ) && old(self).registered(*final(self), handle, first, second),
            final(self).pending() == after_registration(old(self).pending(), handle, suspension),
            final(self).signals_for_one() == old(self).signals_for_one(),
            final(self).signals_for_all() == old(self).signals_for_all(),
            final(self).counts_waiters() == old(self).counts_waiters(),
    ;

    /// Takes the oldest pending waiter, if there is one, out of the queue to
    /// be resumed.
    fn wake_one(&mut self) -> (wake: Woken)
        requires
            old(self).wf(),
        ensures
            final(self).wf(),
            old(self).woke_one(*final(self)),
            final(self).pending() == after_wake_one(old(self).pending()),
            wake.handles@ == handles_of(woken_by_wake_one(old(self).pending())),
            wake.signals@ == old(self).signals_for_one(),
            final(self).signals_for_one() == old(self).signals_for_one(),
            final(self).signals_for_all() == old(self).signals_for_all(),
            final(self).counts_waiters() == old(self).counts_waiters(),
    ;

    /// Takes every pending waiter out of the queue to be resumed.
    fn wake_all(&mut self) -> (wake: Woken)
        requires
            old(self).wf(),
        ensures
            final(self).wf(),
            old(self).woke_all(*final(self)),
            final(self).pending() == Seq::<Waker>::empty(),
            wake.handles@ == old(self).pending(),
            wake.signals@ == old(self).signals_for_all(),
            final(self).signals_for_one() == old(self).signals_for_one(),
            final(self).signals_for_all() == old(self).signals_for_all(),
            final(self).counts_waiters() == old(self).counts_waiters(),
    ;

    /// Withdraws a registration whose task gave up waiting.
    fn withdraw(&mut self, suspension: Suspension)
        requires
            old(self).wf(),
        ensures
            final(self).wf(),
            old(self).withdrew(*final(self), suspension),
            final(self).pending() == old(self).after_withdrawal(suspension),
            final(self).signals_for_one() == old(self).signals_for_one(),
            final(self).signals_for_all() == old(self).signals_for_all(),
            final(self).counts_waiters() == old(self).counts_waiters(),
    ;

    /// A diagnostic count of the waiters, or `None` from a backend that
    /// cannot count them.
    fn waiter_count(&self) -> (count: Option<usize>)
        requires
            self.wf(),
        ensures
            count == (if self.counts_waiters() {
                Some(self.counted() as usize)
            } else {
                None
            }),
            self.counts_waiters() ==> self.counted() <= usize::MAX,
    ;
}

/// A wake removes exactly one pending handle, the oldest, as long as there
/// is one: `count` wakes resume the first `count` pending handles in order,
/// never more than there are, and leave the others pending.
pub proof fn lemma_wakes_resume_oldest(pending: Seq<Waker>, count: nat)
    ensures
        count <= pending.len() ==> woken_by_wakes(pending, count) == pending.take(count as int),
        count <= pending.len() ==> after_wakes(pending, count) == pending.skip(count as int),
        count >= pending.len() ==> woken_by_wakes(pending, count) == pending,
        count >= pending.len() ==> after_wakes(pending, count) == Seq::<Waker>::empty(),
    decreases count,
{
    if count == 0 {
        assert(pending.take(0) =~= Seq::<Waker>::empty());
        assert(pending.skip(0) =~= pending);
        if pending.len() == 0 {
            assert(pending =~= Seq::<Waker>::empty());
        }
    } else if pending.len() == 0 {
        lemma_wakes_resume_oldest(pending, (count - 1) as nat);
        assert(pending =~= Seq::<Waker>::empty());
    } else {
        let rest = pending.drop_first();
        lemma_wakes_resume_oldest(rest, (count - 1) as nat);
        if count <= pending.len() {
            assert(seq![pending[0]] + rest.take(count - 1) =~= pending.take(count as int));
            assert(rest.skip(count - 1) =~= pending.skip(count as int));
        }
        if count >= pending.len() {
            assert(seq![pending[0]] + rest =~= pending);
        }
    }
}

/// As many wakes as there are pending waiters resume each of them exactly
/// once and leave none pending.
pub proof fn lemma_one_wake_per_waiter(pending: Seq<Waker>)
    ensures
        woken_by_wakes(pending, pending.len()) == pending,
        after_wakes(pending, pending.len()) == Seq::<Waker>::empty(),
{
    lemma_wakes_resume_oldest(pending, pending.len());
}

/// The pending handles after the tasks of `handles` registered one after the
/// other and each was stored.
pub open spec fn after_registrations(pending: Seq<Waker>, handles: Seq<Waker>) -> Seq<Waker>
    decreases handles.len(),
{
    if handles.len() == 0 {
        pending
    } else {
        after_registration(
            after_registrations(pending, handles.drop_last()),
            handles.last(),
            Suspension::Multi,
        )
    }
}

/// Every waiter that registered and was stored is pending, in the order of
/// registration, behind those that were pending before: a wake of all resumes
/// each of them, and nothing else.
pub proof fn lemma_registered_waiters_are_pending(pending: Seq<Waker>, handles: Seq<Waker>)
    ensures
        after_registrations(pending, handles) == pending + handles,
        after_registrations(Seq::empty(), handles) == handles,
        after_registrations(Seq::empty(), handles).len() == handles.len(),
    decreases handles.len(),
{
    if handles.len() == 0 {
        assert(pending + handles =~= pending);
        assert(Seq::<Waker>::empty() + handles =~= handles);
    } else {
        lemma_registered_waiters_are_pending(pending, handles.drop_last());
        lemma_registered_waiters_are_pending(Seq::empty(), handles.drop_last());
        assert((pending + handles.drop_last()).push(handles.last()) =~= pending + handles);
        assert(handles.drop_last().push(handles.last()) =~= handles);
    }
}

} // verus!
