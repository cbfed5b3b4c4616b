//! Resumption handles and the lock-free single slot that stores one of them.
//!
//! A handle is a [`Waker`]: an opaque token that, when invoked, asks the
//! scheduler to poll the owning task again. In contracts two handles are equal
//! when they resume the same task, so a clone of a handle equals the handle.

use atomic_waker::AtomicWaker;
use std::task::Waker;
use vstd::prelude::*;

verus! {

/// The scheduler's resumption handle, carried through the library unread.
#[verifier::external_type_specification]
#[verifier::external_body]
pub struct ExWaker(Waker);

/// The single-handle slot of the `atomic_waker` crate.
#[verifier::external_type_specification]
#[verifier::external_body]
pub struct ExAtomicWaker(AtomicWaker);

/// The handles that a slot stores: none or one.
pub uninterp spec fn slot_handles(slot: AtomicWaker) -> Seq<Waker>;

/// `AtomicWaker::new`: a fresh slot stores nothing.
#[verifier::external_body]
pub(crate) fn slot_new() -> (slot: AtomicWaker)
    ensures
        slot_handles(slot) == Seq::<Waker>::empty(),
{
    AtomicWaker::new()
}

/// `AtomicWaker::register` on an exclusively borrowed, empty slot: the slot
/// then stores a clone of `handle`.
#[verifier::external_body]
pub(crate) fn slot_register(slot: &mut AtomicWaker, handle: &Waker)
    requires
        slot_handles(*old(slot)).len() == 0,
    ensures
        slot_handles(*final(slot)) == seq![*handle],
{
    slot.register(handle)
}

/// `AtomicWaker::take` on an exclusively borrowed slot: hands out the stored
/// handle, if any, and leaves the slot empty.
#[verifier::external_body]
pub(crate) fn slot_take(slot: &mut AtomicWaker) -> (taken: Option<Waker>)
    ensures
        match taken {
            Some(handle) => slot_handles(*old(slot)) == seq![handle],
            None => slot_handles(*old(slot)) == Seq::<Waker>::empty(),
        },
        slot_handles(*final(slot)) == Seq::<Waker>::empty(),
{
    slot.take()
}

/// `Waker::wake`: invokes the handle, consuming it. Nothing is known of the
/// scheduler's reaction.
#[verifier::external_body]
pub(crate) fn invoke(handle: Waker) {
    handle.wake()
}

} // verus!
