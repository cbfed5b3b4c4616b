//! The plain queue: one ordered collection of handles, first in, first out.
//!
//! The check of the condition and the store of the handle happen within one
//! call on exclusively borrowed state, so no notifier can come between them.

use crate::waiter_queue::{after_wake_one, handles_of, woken_by_wake_one, Signal, Woken};
use std::collections::VecDeque;
use std::task::Waker;
use vstd::prelude::*;

verus! {

/// A first-in-first-out queue of suspended tasks' handles.
pub struct WaiterQueue {
    waiters: VecDeque<Waker>,
}

impl WaiterQueue {
    /// The stored handles, oldest first.
    pub closed spec fn pending(&self) -> Seq<Waker> {
        self.waiters@
    }

    /// An empty queue.
    pub fn new() -> (queue: Self)
        ensures
            queue.pending() == Seq::<Waker>::empty(),
    {
        WaiterQueue { waiters: VecDeque::new() }
    }

    /// Evaluates `condition` once and stores `waker` unless it holds. Returns
    /// what the condition gave: `true` means ready with nothing stored,
    /// `false` means that the handle now waits at the end of the queue.
    pub fn add_waiter_if<F: FnOnce() -> bool>(&mut self, condition: F, waker: Waker) -> (ready:
        bool)
        requires
            condition.requires(()),
        ensures
            condition.ensures((), ready),
            final(self).pending() == (if ready {
                old(self).pending()
            } else {
                old(self).pending().push(waker)
            }),
    {
        if condition() {
            return true;
        }
        self.waiters.push_back(waker);
        false
    }

    /// Takes the oldest handle, if there is one, out of the queue to be
    /// resumed.
    pub fn wake_one(&mut self) -> (wake: Woken)
        ensures
            final(self).pending() == after_wake_one(old(self).pending()),
            wake.handles@ == handles_of(woken_by_wake_one(old(self).pending())),
            wake.signals@ == Seq::<Signal>::empty(),
    {
        let mut handles: VecDeque<Waker> = VecDeque::new();
        if let Some(waker) = self.waiters.pop_front() {
            handles.push_back(waker);
        }
        Woken::of_handles(handles)
    }

    /// Takes every handle out of the queue to be resumed, oldest first.
    pub fn wake_all(&mut self) -> (wake: Woken)
        ensures
            final(self).pending() == Seq::<Waker>::empty(),
            wake.handles@ == old(self).pending(),
            wake.signals@ == Seq::<Signal>::empty(),
    {
        let mut wakers: VecDeque<Waker> = VecDeque::new();
        std::mem::swap(&mut self.waiters, &mut wakers);
        Woken::of_handles(wakers)
    }

    /// The number of stored handles.
    pub fn waiter_count(&self) -> (count: usize)
        ensures
            count == self.pending().len(),
    {
        self.waiters.len()
    }
}

} // verus!
