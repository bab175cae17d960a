//! The captured value, and its dispatch to a consumer.

use vstd::prelude::*;
use crate::error::VisitError;
use crate::fill::{Fill, Slot};
use crate::primitive::Primitive;
use crate::structured::SvalRef;
use crate::visitor::{Call, Text, Visitor};

verus! {

/// A captured value: a primitive, or a borrow of a value that can be filled in,
/// rendered or streamed. It owns none of what it refers to.
#[derive(Clone, Copy)]
pub enum Inner<'v> {
    /// A simple primitive value that can be copied without allocating.
    Primitive(Primitive<'v>),
    /// A value that can be filled.
    Fill(&'v dyn Fill),
    /// A debuggable value.
    Debug(&'v dyn core::fmt::Debug),
    /// A displayable value.
    Display(&'v dyn core::fmt::Display),
    /// A structured value.
    Sval(SvalRef<'v>),
}

/// A captured value that is not deferred: what a slot holds once it is filled.
#[derive(Clone, Copy)]
pub enum Settled<'v> {
    /// A simple primitive value.
    Primitive(Primitive<'v>),
    /// A debuggable value.
    Debug(&'v dyn core::fmt::Debug),
    /// A displayable value.
    Display(&'v dyn core::fmt::Display),
    /// A structured value.
    Sval(SvalRef<'v>),
}

impl<'v> Settled<'v> {
    /// The one consumer call that this value gives rise to.
    pub open spec fn call(&self) -> Call<'v> {
        match *self {
            Settled::Primitive(Primitive::Signed(value)) => Call::Signed(value),
            Settled::Primitive(Primitive::Unsigned(value)) => Call::Unsigned(value),
            Settled::Primitive(Primitive::Float(bits)) => Call::Float(bits),
            Settled::Primitive(Primitive::Bool(value)) => Call::Bool(value),
            Settled::Primitive(Primitive::Char(value)) => Call::Char(value),
            Settled::Primitive(Primitive::Str(value)) => Call::Str(value),
            Settled::Primitive(Primitive::Absent) => Call::Absent,
            Settled::Debug(value) => Call::Debug(Text::Debug(value)),
            Settled::Display(value) => Call::Debug(Text::Display(value)),
            Settled::Sval(value) => Call::Sval(value),
        }
    }

    /// Hands the value to the one method of `visitor` that matches it, and
    /// returns what that call returned.
    pub fn visit<V: Visitor>(&self, visitor: &mut V) -> (r: Result<(), VisitError>)
        ensures
            V::step(*old(visitor), self.call(), *final(visitor), r),
    {
        match *self {
            Settled::Primitive(value) => match value {
                Primitive::Signed(value) => visitor.i64(value),
                Primitive::Unsigned(value) => visitor.u64(value),
                Primitive::Float(bits) => visitor.float(bits),
                Primitive::Bool(value) => visitor.bool(value),
                Primitive::Char(value) => visitor.char(value),
                Primitive::Str(value) => visitor.str(value),
                Primitive::Absent => visitor.none(),
            },
            Settled::Debug(value) => visitor.debug(Text::Debug(value)),
            Settled::Display(value) => visitor.display(Text::Display(value)),
            Settled::Sval(value) => visitor.sval(value),
        }
    }
}

impl<'v> Inner<'v> {
    /// The value as one that is not deferred, where it is one.
    pub open spec fn spec_settled(&self) -> Option<Settled<'v>> {
        match *self {
            Inner::Primitive(value) => Some(Settled::Primitive(value)),
            Inner::Fill(_) => None,
            Inner::Debug(value) => Some(Settled::Debug(value)),
            Inner::Display(value) => Some(Settled::Display(value)),
            Inner::Sval(value) => Some(Settled::Sval(value)),
        }
    }

    /// The value as one that is not deferred; `None` for a deferred value.
    #[verifier::when_used_as_spec(spec_settled)]
    pub fn settled(&self) -> (r: Option<Settled<'v>>)
        ensures
            r == self.spec_settled(),
    {
        match *self {
            Inner::Primitive(value) => Some(Settled::Primitive(value)),
            Inner::Fill(_) => None,
            Inner::Debug(value) => Some(Settled::Debug(value)),
            Inner::Display(value) => Some(Settled::Display(value)),
            Inner::Sval(value) => Some(Settled::Sval(value)),
        }
    }

    /// Dispatches the value to `visitor`.
    ///
    /// Any value but a deferred one makes exactly one call, the one that
    /// matches it, and returns what that call returned. A deferred value is
    /// first asked to fill a slot, and what the fill left is dispatched by
    /// [`dispatch_filled`]: if the fill failed, the consumer is left untouched
    /// and the failure is returned; otherwise the value in the slot makes its
    /// one call.
    pub fn visit<V: Visitor>(&self, visitor: &mut V) -> (r: Result<(), VisitError>)
        ensures
            self.settled() matches Some(value) ==> V::step(
                *old(visitor),
                value.call(),
                *final(visitor),
                r,
            ),
            self is Fill ==> (r is Err && *final(visitor) == *old(visitor)) || (exists|
                value: Settled<'v>,
            | #[trigger] V::step(*old(visitor), value.call(), *final(visitor), r)),
    {
        match *self {
            Inner::Fill(deferred) => {
                let mut slot = Slot::new();
                let filled = deferred.fill(&mut slot);
                dispatch_filled(filled, slot, visitor)
            },
            Inner::Primitive(value) => Settled::Primitive(value).visit(visitor),
            Inner::Debug(value) => Settled::Debug(value).visit(visitor),
            Inner::Display(value) => Settled::Display(value).visit(visitor),
            Inner::Sval(value) => Settled::Sval(value).visit(visitor),
        }
    }
}

/// Dispatches what a deferred value left of its fill: `filled` is what the
/// fill returned, and `slot` the slot it was handed.
///
/// A failed fill is returned as it is, and the consumer is left untouched. After
/// a successful one the value in the slot makes its one call, and what that
/// call returned is returned; a slot that was left empty all the same makes no
/// call.
pub fn dispatch_filled<'v, V: Visitor>(
    filled: Result<(), VisitError>,
    slot: Slot<'v>,
    visitor: &mut V,
) -> (r: Result<(), VisitError>)
    ensures
        filled is Err ==> r == filled && *final(visitor) == *old(visitor),
        filled is Ok ==> match slot.content() {
            Some(value) => V::step(*old(visitor), value.call(), *final(visitor), r),
            None => r is Ok && *final(visitor) == *old(visitor),
        },
{
    match filled {
        Ok(()) => match slot.take() {
            Some(value) => value.visit(visitor),
            None => Ok(()),
        },
        Err(e) => Err(e),
    }
}

} // verus!
