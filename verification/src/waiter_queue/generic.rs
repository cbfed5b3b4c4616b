//! The portable queue: a lock-free slot for the common single waiter and an
//! ordered collection for two or more, with a mode tag that says which is in
//! use.

use crate::handle::{slot_handles, slot_new, slot_register, slot_take};
use crate::waiter_queue::{
    after_registration, after_wake_one, checks_allowed, handles_of, woken_by_wake_one, Signal,
    Suspension, Woken, WaiterQueueTrait,
};
use atomic_waker::AtomicWaker;
use std::collections::VecDeque;
use std::task::Waker;
use vstd::prelude::*;

verus! {

/// Which storage of a queue is in use.
#[derive(Debug, Clone, Copy, PartialEq, Eq, Structural)]
pub enum Mode {
    /// No waiter.
    Empty,
    /// Exactly one waiter, in the single slot.
    Single,
    /// Waiters in the ordered collection.
    Multi,
}

impl Mode {
    /// The tag's encoding as a byte.
    pub open spec fn tag(self) -> u8 {
        match self {
            Mode::Empty => 0u8,
            Mode::Single => 1u8,
            Mode::Multi => 2u8,
        }
    }

    /// Encodes the tag.
    pub fn to_u8(self) -> (tag: u8)
        ensures
            tag == self.tag(),
    {
        match self {
            Mode::Empty => 0,
            Mode::Single => 1,
            Mode::Multi => 2,
        }
    }

    /// Decodes a tag; a byte above 2 encodes no mode.
    pub fn from_u8(tag: u8) -> (mode: Option<Mode>)
        ensures
            match mode {
                Some(m) => m.tag() == tag,
                None => tag > 2,
            },
    {
        if tag == 0 {
            Some(Mode::Empty)
        } else if tag == 1 {
            Some(Mode::Single)
        } else if tag == 2 {
            Some(Mode::Multi)
        } else {
            None
        }
    }
}

/// The ticket that follows `ticket`; the numbering wraps around.
pub open spec fn ticket_after(ticket: u64) -> u64 {
    if ticket == u64::MAX {
        0u64
    } else {
        (ticket + 1) as u64
    }
}

/// The mode after a registration that found the queue in mode `before`, with
/// `multi_len` handles in its collection, and whose two checks of the
/// condition gave `first` and `second`.
pub open spec fn mode_after_registration(
    before: Mode,
    multi_len: nat,
    first: bool,
    second: bool,
) -> Mode {
    match before {
        Mode::Empty => if first || second {
            Mode::Empty
        } else {
            Mode::Single
        },
        Mode::Single => if first {
            Mode::Single
        } else {
            Mode::Multi
        },
        Mode::Multi => if first {
            Mode::Multi
        } else if second && multi_len == 0 {
            Mode::Empty
        } else {
            Mode::Multi
        },
    }
}

/// How a registration reports itself to the caller: `Ready` if a check of
/// the condition gave `true`, else the place where the handle waits.
pub open spec fn suspension_after_registration(
    before: Mode,
    next_ticket: u64,
    first: bool,
    second: bool,
) -> Suspension {
    if first || second {
        Suspension::Ready
    } else if before is Empty {
        Suspension::Single(next_ticket)
    } else {
        Suspension::Multi
    }
}

/// Suspended tasks' handles, one per waiter.
pub struct WaiterQueue {
    mode: Mode,
    single: AtomicWaker,
    single_ticket: u64,
    next_ticket: u64,
    multi: VecDeque<Waker>,
}

impl WaiterQueue {
    /// The mode tag.
    pub closed spec fn mode(&self) -> Mode {
        self.mode
    }

    /// The handles in the single slot: none or one.
    pub closed spec fn single(&self) -> Seq<Waker> {
        slot_handles(self.single)
    }

    /// The ticket under which the single slot was last filled.
    pub closed spec fn ticket(&self) -> u64 {
        self.single_ticket
    }

    /// The ticket for the next handle that goes to the single slot.
    pub closed spec fn next_ticket(&self) -> u64 {
        self.next_ticket
    }

    /// The handles in the ordered collection, oldest first.
    pub closed spec fn multi(&self) -> Seq<Waker> {
        self.multi@
    }

    /// Every stored handle, in the order in which they would be resumed.
    pub open spec fn pending(&self) -> Seq<Waker> {
        self.single() + self.multi()
    }

    /// The mode tag agrees with the storages: nothing is stored in mode
    /// `Empty`, exactly the single slot is filled in mode `Single`, and the
    /// single slot is free in mode `Multi`.
    pub open spec fn wf(&self) -> bool {
        match self.mode() {
            Mode::Empty => self.single().len() == 0 && self.multi().len() == 0,
            Mode::Single => self.single().len() == 1 && self.multi().len() == 0,
            Mode::Multi => self.single().len() == 0,
        }
    }

    /// The queue is as `new` makes it.
    pub open spec fn is_fresh(&self) -> bool {
        &&& self.mode() is Empty
        &&& self.pending() == Seq::<Waker>::empty()
        &&& self.ticket() == 0
        &&& self.next_ticket() == 0
    }

    /// A registration that stores its handle finds the single slot free for
    /// it: the first check of the condition gave `false` and the queue is
    /// empty.
    pub open spec fn stores_in_slot(&self, first: bool) -> bool {
        !first && self.mode() is Empty
    }

    /// The handle that was stored last is still where `stored` says: in the
    /// single slot under that ticket, or at the end of the collection.
    pub open spec fn holds_last(&self, stored: Suspension) -> bool {
        match stored {
            Suspension::Single(ticket) => self.mode() is Single && self.ticket() == ticket,
            Suspension::Multi => self.mode() is Multi && self.multi().len() > 0,
            _ => false,
        }
    }

    /// `after` is this queue after `store_unless(first, handle)`.
    pub open spec fn stored(&self, after: Self, handle: Waker, first: bool) -> bool {
        &&& after.wf()
        &&& after.mode() == (if first {
            self.mode()
        } else if self.mode() is Empty {
            Mode::Single
        } else {
            Mode::Multi
        })
        &&& after.pending() == (if first {
            self.pending()
        } else {
            self.pending().push(handle)
        })
        &&& after.ticket() == (if self.stores_in_slot(first) {
            self.next_ticket()
        } else {
            self.ticket()
        })
        &&& after.next_ticket() == (if self.stores_in_slot(first) {
            ticket_after(self.next_ticket())
        } else {
            self.next_ticket()
        })
    }

    /// `after` is this queue after `settle(stored, second)`.
    pub open spec fn settled(&self, after: Self, stored: Suspension, second: bool) -> bool {
        &&& after.wf()
        &&& after.ticket() == self.ticket()
        &&& after.next_ticket() == self.next_ticket()
        &&& after.pending() == (if second && self.holds_last(stored) {
            self.pending().drop_last()
        } else {
            self.pending()
        })
        &&& after.mode() == (if second && self.holds_last(stored) {
            if stored is Multi && self.multi().len() > 1 {
                Mode::Multi
            } else {
                Mode::Empty
            }
        } else {
            self.mode()
        })
    }

    /// `after` is this queue after a registration of `handle` whose checks of
    /// the condition gave `first` and `second`.
    pub open spec fn registered(&self, after: Self, handle: Waker, first: bool, second: bool) -> bool {
        &&& after.wf()
        &&& after.mode() == mode_after_registration(self.mode(), self.multi().len(), first, second)
        &&& after.pending() == after_registration(
            self.pending(),
            handle,
            suspension_after_registration(self.mode(), self.next_ticket(), first, second),
        )
        &&& after.ticket() == (if self.stores_in_slot(first) {
            self.next_ticket()
        } else {
            self.ticket()
        })
        &&& after.next_ticket() == (if self.stores_in_slot(first) {
            ticket_after(self.next_ticket())
        } else {
            self.next_ticket()
        })
    }

    /// The mode after `wake_one`.
    pub open spec fn mode_after_wake_one(&self) -> Mode {
        if self.mode() is Multi && self.multi().len() > 0 {
            Mode::Multi
        } else {
            Mode::Empty
        }
    }

    /// `after` is this queue after `pop_one` or `wake_one`.
    pub open spec fn woke_one(&self, after: Self) -> bool {
        &&& after.wf()
        &&& after.mode() == self.mode_after_wake_one()
        &&& after.pending() == after_wake_one(self.pending())
        &&& after.ticket() == self.ticket()
        &&& after.next_ticket() == self.next_ticket()
    }

    /// `after` is this queue after `drain_all` or `wake_all`.
    pub open spec fn woke_all(&self, after: Self) -> bool {
        &&& after.wf()
        &&& after.mode() is Empty
        &&& after.pending() == Seq::<Waker>::empty()
        &&& after.ticket() == self.ticket()
        &&& after.next_ticket() == self.next_ticket()
    }

    /// A withdrawal of `suspension` finds its handle: the registration was
    /// made in the single slot, and the slot still holds what was stored under
    /// that ticket.
    pub open spec fn withdraws(&self, suspension: Suspension) -> bool {
        match suspension {
            Suspension::Single(ticket) => self.mode() is Single && self.ticket() == ticket,
            _ => false,
        }
    }

    /// The pending handles after withdrawing a registration that had ended
    /// as `suspension`.
    pub open spec fn after_withdrawal(&self, suspension: Suspension) -> Seq<Waker> {
        if self.withdraws(suspension) {
            Seq::empty()
        } else {
            self.pending()
        }
    }

    /// `after` is this queue after `withdraw(suspension)`.
    pub open spec fn withdrew(&self, after: Self, suspension: Suspension) -> bool {
        &&& after.wf()
        &&& after.mode() == (if self.withdraws(suspension) {
            Mode::Empty
        } else {
            self.mode()
        })
        &&& after.pending() == self.after_withdrawal(suspension)
        &&& after.ticket() == self.ticket()
        &&& after.next_ticket() == self.next_ticket()
    }

    /// An empty queue.
    pub fn new() -> (queue: Self)
        ensures
            queue.wf(),
            queue.is_fresh(),
            queue.mode() is Empty,
            queue.pending() == Seq::<Waker>::empty(),
    {
        WaiterQueue {
            mode: Mode::Empty,
            single: slot_new(),
            single_ticket: 0,
            next_ticket: 0,
            multi: VecDeque::new(),
        }
    }

    /// Reads the mode tag.
    pub fn load_mode(&self) -> (mode: Mode)
        ensures
            mode == self.mode(),
    {
        self.mode
    }

    /// The first step of a registration, for a caller that has just checked
    /// the condition and found `first`.
    ///
    /// If the condition held, nothing is stored and the answer is `Ready`.
    /// Otherwise `handle` joins the pending ones: in the single slot, under a
    /// fresh ticket, if the queue was empty, else at the end of the
    /// collection, into which a handle still in the single slot moves first.
    /// The caller then checks the condition once more and calls `settle`.
    pub fn store_unless(&mut self, first: bool, handle: Waker) -> (stored: Suspension)
        requires
            old(self).wf(),
        ensures
            old(self).stored(*final(self), handle, first),
            stored == suspension_after_registration(
                old(self).mode(),
                old(self).next_ticket(),
                first,
                false,
            ),
            !first ==> final(self).holds_last(stored),
    {
        if first {
            return Suspension::Ready;
        }
        if self.mode == Mode::Empty {
            let ticket = self.next_ticket;
            slot_register(&mut self.single, &handle);
            self.single_ticket = ticket;
            self.next_ticket = ticket.wrapping_add(1);
            self.mode = Mode::Single;
            assert(self.pending() =~= old(self).pending().push(handle));
            return Suspension::Single(ticket);
        }
        if let Some(previous) = slot_take(&mut self.single) {
            self.multi.push_back(previous);
        }
        assert(self.multi@ =~= old(self).pending());
        self.multi.push_back(handle);
        self.mode = Mode::Multi;
        Suspension::Multi
    }

    /// The last step of a registration, for a caller that has checked the
    /// condition again after `store_unless` stored its handle, and found
    /// `second`.
    ///
    /// If the condition holds by now, the handle that was stored last is
    /// taken back: the task must not sleep on a condition that came true
    /// while it registered. The answer is then `Ready`; otherwise it is
    /// `stored`, and the handle stays.
    pub fn settle(&mut self, stored: Suspension, second: bool) -> (suspension: Suspension)
        requires
            old(self).wf(),
        ensures
            old(self).settled(*final(self), stored, second),
            suspension == (if second {
                Suspension::Ready
            } else {
                stored
            }),
    {
        if !second {
            return stored;
        }
        match stored {
            Suspension::Single(ticket) => {
                if self.mode == Mode::Single && self.single_ticket == ticket {
                    let _ = slot_take(&mut self.single);
                    self.mode = Mode::Empty;
                    assert(self.pending() =~= old(self).pending().drop_last());
                }
            },
            Suspension::Multi => {
                if self.mode == Mode::Multi && self.multi.len() > 0 {
                    let _ = self.multi.pop_back();
                    self.mode = self.mode_of_collection();
                    assert(self.pending() =~= old(self).pending().drop_last());
                }
            },
            _ => {},
        }
        Suspension::Ready
    }

    /// Checks `condition` and stores `handle` unless it holds.
    ///
    /// The condition is evaluated before the handle is stored and, if it
    /// was false, once more after, so that a change between the first check
    /// and the store is seen: `store_unless` gets the first answer and
    /// `settle` the second. The call ends `Ready`, with no handle added,
    /// exactly if one of the two evaluations gave `true`.
    pub fn add_waiter_if<F: Fn() -> bool>(&mut self, condition: F, handle: Waker) -> (suspension:
        Suspension)
        requires
            old(self).wf(),
            condition.requires(()),
        ensures
            final(self).wf(),
            exists|first: bool, second: bool| #[trigger]
                checks_allowed(condition, first, second) && (first ==> !second) && suspension
                    == suspension_after_registration(
                    old(self).mode(),
                    old(self).next_ticket(),
                    first,
                    second,
                ) && old(self).registered(*final(self), handle, first, second),
            final(self).pending() == after_registration(old(self).pending(), handle, suspension),
            !(suspension is Futex) && !(suspension is Event),
    {
        let first = condition();
        let stored = self.store_unless(first, handle);
        if first {
            assert(checks_allowed(condition, true, false));
            return stored;
        }
        let ghost middle = *self;
        let second = condition();
        let suspension = self.settle(stored, second);
        proof {
            assert(checks_allowed(condition, false, second));
            assert(middle.pending().drop_last() =~= old(self).pending());
            assert(old(self).registered(*self, handle, false, second));
        }
        suspension
    }

    /// Removes the handle that is next to be resumed: the oldest of the
    /// collection or, when the collection holds none, the one in the single
    /// slot. The mode falls back to `Empty` once a removal finds nothing left
    /// behind the handle it took from the single slot, or finds nothing at
    /// all; a collection that its last handle has just left keeps mode
    /// `Multi` until the next call.
    pub fn pop_one(&mut self) -> (popped: Option<Waker>)
        requires
            old(self).wf(),
        ensures
            old(self).woke_one(*final(self)),
            popped == woken_by_wake_one(old(self).pending()),
    {
        match self.mode {
            Mode::Empty => None,
            Mode::Single => {
                match slot_take(&mut self.single) {
                    Some(handle) => {
                        self.mode = self.mode_of_collection();
                        assert(self.pending() =~= old(self).pending().drop_first());
                        Some(handle)
                    },
                    None => {
                        let popped = self.multi.pop_front();
                        if popped.is_none() {
                            self.mode = self.mode_of_collection();
                        }
                        popped
                    },
                }
            },
            Mode::Multi => {
                match self.multi.pop_front() {
                    Some(handle) => {
                        assert(self.pending() =~= old(self).pending().drop_first());
                        Some(handle)
                    },
                    None => {
                        match slot_take(&mut self.single) {
                            Some(handle) => {
                                self.mode = self.mode_of_collection();
                                Some(handle)
                            },
                            None => {
                                self.mode = Mode::Empty;
                                None
                            },
                        }
                    },
                }
            },
        }
    }

    /// The mode that fits the collection alone.
    fn mode_of_collection(&self) -> (mode: Mode)
        ensures
            mode == (if self.multi().len() > 0 {
                Mode::Multi
            } else {
                Mode::Empty
            }),
    {
        if self.multi.len() > 0 {
            Mode::Multi
        } else {
            Mode::Empty
        }
    }

    /// Takes every handle out of both storages, in the order in which
    /// `pop_one` would have handed them out, and resets the mode. Invoking
    /// them is left to the caller.
    pub fn drain_all(&mut self) -> (drained: VecDeque<Waker>)
        ensures
            old(self).woke_all(*final(self)),
            drained@ == old(self).pending(),
    {
        let single = slot_take(&mut self.single);
        let mut drained: VecDeque<Waker> = VecDeque::new();
        std::mem::swap(&mut self.multi, &mut drained);
        self.mode = Mode::Empty;
        if let Some(handle) = single {
            drained.push_front(handle);
        }
        drained
    }

    /// Takes the oldest waiter out of the queue to be resumed: the result holds
    /// the handle that `pop_one` removes, or nothing if no waiter is pending.
    pub fn wake_one(&mut self) -> (wake: Woken)
        requires
            old(self).wf(),
        ensures
            old(self).woke_one(*final(self)),
            wake.handles@ == handles_of(woken_by_wake_one(old(self).pending())),
            wake.signals@ == Seq::<Signal>::empty(),
    {
        let mut handles: VecDeque<Waker> = VecDeque::new();
        if let Some(handle) = self.pop_one() {
            handles.push_back(handle);
        }
        Woken::of_handles(handles)
    }

    /// Takes every waiter out of the queue to be resumed: the result holds all
    /// the handles that were pending, oldest first.
    pub fn wake_all(&mut self) -> (wake: Woken)
        ensures
            old(self).woke_all(*final(self)),
            wake.handles@ == old(self).pending(),
            wake.signals@ == Seq::<Signal>::empty(),
    {
        Woken::of_handles(self.drain_all())
    }

    /// The number of pending waiters: the single slot counts for one while
    /// it is filled, and the collection for its length.
    pub fn waiter_count(&self) -> (count: usize)
        requires
            self.wf(),
        ensures
            count == self.pending().len(),
    {
        let multi_count = self.multi.len();
        match self.mode {
            Mode::Empty => multi_count,
            Mode::Single => 1 + multi_count,
            Mode::Multi => multi_count,
        }
    }

    /// Gives up a registration whose task will not wait any longer.
    ///
    /// A registration in the single slot is withdrawn by emptying the slot,
    /// if the slot still holds what was stored under the registration's
    /// ticket. One in the collection stays where it is: its handle is handed
    /// out in its turn, and invoking it has no effect.
    pub fn withdraw(&mut self, suspension: Suspension)
        requires
            old(self).wf(),
        ensures
            old(self).withdrew(*final(self), suspension),
    {
        match suspension {
            Suspension::Single(ticket) => {
                if self.mode == Mode::Single && self.single_ticket == ticket {
                    let _ = slot_take(&mut self.single);
                    self.mode = Mode::Empty;
                    assert(self.pending() =~= Seq::<Waker>::empty());
                }
            },
            _ => {},
        }
    }
}

impl WaiterQueueTrait for WaiterQueue {
    open spec fn wf(&self) -> bool {
        WaiterQueue::wf(self)
    }

    open spec fn pending(&self) -> Seq<Waker> {
        WaiterQueue::pending(self)
    }

    open spec fn counts_waiters(&self) -> bool {
        true
    }

    open spec fn counted(&self) -> nat {
        WaiterQueue::pending(self).len()
    }

    open spec fn after_withdrawal(&self, suspension: Suspension) -> Seq<Waker> {
        WaiterQueue::after_withdrawal(self, suspension)
    }

    open spec fn suspension_after(&self, first: bool, second: bool) -> Suspension {
        suspension_after_registration(self.mode(), self.next_ticket(), first, second)
    }

    open spec fn signals_for_one(&self) -> Seq<Signal> {
        Seq::empty()
    }

    open spec fn signals_for_all(&self) -> Seq<Signal> {
        Seq::empty()
    }

    open spec fn is_fresh(&self) -> bool {
        WaiterQueue::is_fresh(self)
    }

    open spec fn registered(&self, after: Self, handle: Waker, first: bool, second: bool) -> bool {
        WaiterQueue::registered(self, after, handle, first, second)
    }

    open spec fn woke_one(&self, after: Self) -> bool {
        WaiterQueue::woke_one(self, after)
    }

    open spec fn woke_all(&self, after: Self) -> bool {
        WaiterQueue::woke_all(self, after)
    }

    open spec fn withdrew(&self, after: Self, suspension: Suspension) -> bool {
        WaiterQueue::withdrew(self, after, suspension)
    }

    fn new() -> (queue: Self) {
        WaiterQueue::new()
    }

    fn add_waiter_if<F: Fn() -> bool>(&mut self, condition: F, handle: Waker) -> (suspension:
        Suspension) {
        WaiterQueue::add_waiter_if(self, condition, handle)
    }

    fn wake_one(&mut self) -> (wake: Woken) {
        WaiterQueue::wake_one(self)
    }

    fn wake_all(&mut self) -> (wake: Woken) {
        WaiterQueue::wake_all(self)
    }

    fn withdraw(&mut self, suspension: Suspension) {
        WaiterQueue::withdraw(self, suspension)
    }

    fn waiter_count(&self) -> (count: Option<usize>) {
        Some(WaiterQueue::waiter_count(self))
    }
}

} // verus!
