//! Deferred capture: a value that puts what it stands for into a slot.

use vstd::prelude::*;
use crate::error::VisitError;
use crate::inner::{Inner, Settled};

verus! {

/// A value that decides what it stands for only when it is visited.
///
/// A visit hands `fill` an empty slot. A successful `fill` has put exactly one
/// captured value into it, and that value is what the consumer then receives.
pub trait Fill {
    /// Puts the value that `self` stands for into `slot`.
    fn fill<'v>(&'v self, slot: &mut Slot<'v>) -> (r: Result<(), VisitError>)
        requires
            old(slot).content() is None,
        ensures
            r is Ok ==> final(slot).content() is Some,
    ;
}

/// A single-slot acceptor: it takes one captured value, once.
pub struct Slot<'v> {
    value: Option<Settled<'v>>,
}

impl<'v> Slot<'v> {
    /// What the slot holds.
    pub closed spec fn content(&self) -> Option<Settled<'v>> {
        self.value
    }

    /// An empty slot.
    pub fn new() -> (slot: Slot<'v>)
        ensures
            slot.content() is None,
    {
        Slot { value: None }
    }

    /// Whether a value has been put into the slot.
    pub fn is_filled(&self) -> (r: bool)
        ensures
            r == (self.content() is Some),
    {
        self.value.is_some()
    }

    /// Puts `value` into the slot, which takes one value and so must still be
    /// empty.
    ///
    /// A primitive or a borrowed reference is stored as it is. A deferred value
    /// is asked in turn to fill this slot, and its answer is returned.
    pub fn fill(&mut self, value: Inner<'v>) -> (r: Result<(), VisitError>)
        requires
            old(self).content() is None,
        ensures
            r is Ok ==> final(self).content() is Some,
            !(value is Fill) ==> r is Ok && final(self).content() == value.settled(),
    {
        match value {
            Inner::Fill(deferred) => deferred.fill(self),
            _ => {
                self.value = value.settled();
                Ok(())
            },
        }
    }

    /// Takes the value out of the slot, if it holds one.
    pub fn take(self) -> (r: Option<Settled<'v>>)
        ensures
            r == self.content(),
    {
        self.value
    }
}

} // verus!
