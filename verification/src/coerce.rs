//! Typed projections: reducing any captured value to a scalar or a string.

use vstd::prelude::*;
use crate::error::VisitError;
use crate::fill::Slot;
use crate::inner::{dispatch_filled, Inner, Settled};
use crate::primitive::Primitive;
use crate::structured::{self, SvalRef};
use crate::visitor::{Call, Text, Visitor};

verus! {

/// What a captured value reduces to: a primitive, or text that had to be
/// copied to be kept.
pub enum Coerced<'v> {
    Primitive(Primitive<'v>),
    String(String),
}

impl<'v> Coerced<'v> {
    /// The state before anything was captured: an absence.
    pub open spec fn neutral() -> Coerced<'v> {
        Coerced::Primitive(Primitive::Absent)
    }

    /// A captured string is always an owned one.
    pub open spec fn is_owned(&self) -> bool {
        !(*self matches Coerced::Primitive(Primitive::Str(_)))
    }

    /// Whether `self` is what capturing `call` leaves of `before`.
    ///
    /// A scalar or an absence replaces what was there, a string is copied, and
    /// a value that only renders as text leaves the state as it was. For a
    /// structured value it is what the structured coercion of that value
    /// gave, in which a string is owned.
    pub open spec fn captures(&self, before: Coerced<'v>, call: Call<'_>) -> bool {
        match call {
            Call::Signed(v) => *self == Coerced::Primitive(Primitive::Signed(v)),
            Call::Unsigned(v) => *self == Coerced::Primitive(Primitive::Unsigned(v)),
            Call::Float(bits) => *self == Coerced::Primitive(Primitive::Float(bits)),
            Call::Bool(v) => *self == Coerced::Primitive(Primitive::Bool(v)),
            Call::Char(v) => *self == Coerced::Primitive(Primitive::Char(v)),
            Call::Str(v) => *self matches Coerced::String(s) && s@ == v@,
            Call::Absent => *self == Coerced::Primitive(Primitive::Absent),
            Call::Debug(_) => *self == before,
            Call::Sval(v) => self.is_owned() && call_ensures(structured::coerce, (v,), *self),
        }
    }

    /// The unsigned integer, where that is what was captured.
    pub open spec fn unsigned(&self) -> Option<u64> {
        match *self {
            Coerced::Primitive(Primitive::Unsigned(value)) => Some(value),
            _ => None,
        }
    }

    /// The signed integer, where that is what was captured.
    pub open spec fn signed(&self) -> Option<i64> {
        match *self {
            Coerced::Primitive(Primitive::Signed(value)) => Some(value),
            _ => None,
        }
    }

    /// The bit pattern of the float, where that is what was captured.
    pub open spec fn float_bits(&self) -> Option<u64> {
        match *self {
            Coerced::Primitive(Primitive::Float(bits)) => Some(bits),
            _ => None,
        }
    }

    /// The character, where that is what was captured.
    pub open spec fn character(&self) -> Option<char> {
        match *self {
            Coerced::Primitive(Primitive::Char(value)) => Some(value),
            _ => None,
        }
    }

    /// The boolean, where that is what was captured.
    pub open spec fn boolean(&self) -> Option<bool> {
        match *self {
            Coerced::Primitive(Primitive::Bool(value)) => Some(value),
            _ => None,
        }
    }

    /// Whether `r` is the text that was captured, handed out as owned text:
    /// a copy of a borrowed string, an owned string as it is, and nothing for
    /// anything else.
    pub open spec fn hands_out(&self, r: Option<String>) -> bool {
        match *self {
            Coerced::Primitive(Primitive::Str(value)) => r matches Some(s) && s@ == value@,
            Coerced::String(value) => r == Some(value),
            _ => r is None,
        }
    }

    /// The primitive, or an absence where text was captured.
    pub fn into_primitive(self) -> (r: Primitive<'v>)
        ensures
            r == match self {
                Coerced::Primitive(value) => value,
                Coerced::String(_) => Primitive::Absent,
            },
    {
        match self {
            Coerced::Primitive(value) => value,
            _ => Primitive::Absent,
        }
    }

    /// The text, copied where it was borrowed; `None` for anything but a
    /// string.
    pub fn into_string(self) -> (r: Option<String>)
        ensures
            self.hands_out(r),
    {
        match self {
            Coerced::Primitive(Primitive::Str(value)) => Some(value.to_owned()),
            Coerced::String(value) => Some(value),
            _ => None,
        }
    }
}

/// The consumer behind the typed projections: it keeps what it was last
/// handed, and never fails.
pub struct Coerce<'v> {
    pub state: Coerced<'v>,
}

impl<'v> Coerce<'v> {
    /// A consumer in the neutral state.
    pub fn new() -> (r: Coerce<'v>)
        ensures
            r.state == Coerced::<'v>::neutral(),
    {
        Coerce { state: Coerced::Primitive(Primitive::Absent) }
    }
}

impl<'v> Visitor for Coerce<'v> {
    open spec fn step(pre: Self, call: Call<'_>, post: Self, r: Result<(), VisitError>) -> bool {
        r is Ok && post.state.captures(pre.state, call)
    }

    fn debug(&mut self, v: Text<'_>) -> (r: Result<(), VisitError>) {
        Ok(())
    }

    fn u64(&mut self, v: u64) -> (r: Result<(), VisitError>) {
        self.state = Coerced::Primitive(Primitive::Unsigned(v));
        Ok(())
    }

    fn i64(&mut self, v: i64) -> (r: Result<(), VisitError>) {
        self.state = Coerced::Primitive(Primitive::Signed(v));
        Ok(())
    }

    fn float(&mut self, bits: u64) -> (r: Result<(), VisitError>) {
        self.state = Coerced::Primitive(Primitive::Float(bits));
        Ok(())
    }

    fn bool(&mut self, v: bool) -> (r: Result<(), VisitError>) {
        self.state = Coerced::Primitive(Primitive::Bool(v));
        Ok(())
    }

    fn char(&mut self, v: char) -> (r: Result<(), VisitError>) {
        self.state = Coerced::Primitive(Primitive::Char(v));
        Ok(())
    }

    fn str(&mut self, v: &str) -> (r: Result<(), VisitError>) {
        self.state = Coerced::String(v.to_owned());
        Ok(())
    }

    fn none(&mut self) -> (r: Result<(), VisitError>) {
        self.state = Coerced::Primitive(Primitive::Absent);
        Ok(())
    }

    fn sval(&mut self, v: SvalRef<'_>) -> (r: Result<(), VisitError>) {
        self.state = structured::coerce(v);
        Ok(())
    }
}

impl<'v> Inner<'v> {
    /// The value says by itself what it is: it is a primitive, or a borrow of
    /// a value that only renders. A deferred or a structured value has to be
    /// asked.
    pub open spec fn is_plain(&self) -> bool {
        !(self is Fill) && !(self is Sval)
    }

    /// The string slice, where the value is one.
    pub open spec fn own_str(&self) -> Option<&'v str> {
        match *self {
            Inner::Primitive(Primitive::Str(value)) => Some(value),
            _ => None,
        }
    }

    /// The unsigned integer, where the value is one.
    pub open spec fn own_u64(&self) -> Option<u64> {
        match *self {
            Inner::Primitive(Primitive::Unsigned(value)) => Some(value),
            _ => None,
        }
    }

    /// The signed integer, where the value is one.
    pub open spec fn own_i64(&self) -> Option<i64> {
        match *self {
            Inner::Primitive(Primitive::Signed(value)) => Some(value),
            _ => None,
        }
    }

    /// The bit pattern of the float, where the value is one.
    pub open spec fn own_f64_bits(&self) -> Option<u64> {
        match *self {
            Inner::Primitive(Primitive::Float(bits)) => Some(bits),
            _ => None,
        }
    }

    /// The character, where the value is one.
    pub open spec fn own_char(&self) -> Option<char> {
        match *self {
            Inner::Primitive(Primitive::Char(value)) => Some(value),
            _ => None,
        }
    }

    /// The boolean, where the value is one.
    pub open spec fn own_bool(&self) -> Option<bool> {
        match *self {
            Inner::Primitive(Primitive::Bool(value)) => Some(value),
            _ => None,
        }
    }

    /// Reduces the value to what a typed projection reads.
    ///
    /// The value is put into a slot, which asks a deferred value to fill it,
    /// and what that left is reduced by [`coerce_filled`]: the value in the
    /// slot is dispatched once into a consumer that starts in the neutral
    /// state, and a failure is dropped.
    pub fn coerce(&self) -> (r: Coerced<'v>)
        ensures
            r.is_owned(),
            self.settled() matches Some(value) ==> r.captures(Coerced::neutral(), value.call()),
            self is Fill ==> r == Coerced::<'v>::neutral() || (exists|value: Settled<'v>| #[trigger]
                r.captures(Coerced::neutral(), value.call())),
    {
        let mut slot = Slot::new();
        let filled = slot.fill(*self);
        coerce_filled(filled, slot)
    }

    /// The value as a string slice.
    ///
    /// Only a value that is itself a string slice has one to lend: text that
    /// a deferred or a structured value gives is a copy, which
    /// [`Inner::to_str`] hands out.
    pub fn as_str(&self) -> (r: Option<&'v str>)
        ensures
            r == self.own_str(),
    {
        if let Inner::Primitive(Primitive::Str(value)) = *self {
            Some(value)
        } else {
            self.coerce().into_primitive().into_str()
        }
    }

    /// The value as an unsigned integer: absent unless that is its kind. For
    /// a structured value the kind is that of what its coercion gave.
    pub fn as_u64(&self) -> (r: Option<u64>)
        ensures
            self.is_plain() ==> r == self.own_u64(),
            *self matches Inner::Sval(v) ==> exists|c: Coerced<'v>| #[trigger]
                call_ensures(structured::coerce, (v,), c) && r == c.unsigned(),
            self is Fill ==> r is None || exists|value: Settled<'v>, c: Coerced<'v>| #[trigger]
                c.captures(Coerced::neutral(), value.call()) && r == c.unsigned(),
    {
        self.coerce().into_primitive().into_u64()
    }

    /// The value as a signed integer: absent unless that is its kind. For a
    /// structured value the kind is that of what its coercion gave.
    pub fn as_i64(&self) -> (r: Option<i64>)
        ensures
            self.is_plain() ==> r == self.own_i64(),
            *self matches Inner::Sval(v) ==> exists|c: Coerced<'v>| #[trigger]
                call_ensures(structured::coerce, (v,), c) && r == c.signed(),
            self is Fill ==> r is None || exists|value: Settled<'v>, c: Coerced<'v>| #[trigger]
                c.captures(Coerced::neutral(), value.call()) && r == c.signed(),
    {
        self.coerce().into_primitive().into_i64()
    }

    /// The value as the bit pattern of a float: absent unless that is its
    /// kind. For a structured value the kind is that of what its coercion
    /// gave.
    pub fn as_f64_bits(&self) -> (r: Option<u64>)
        ensures
            self.is_plain() ==> r == self.own_f64_bits(),
            *self matches Inner::Sval(v) ==> exists|c: Coerced<'v>| #[trigger]
                call_ensures(structured::coerce, (v,), c) && r == c.float_bits(),
            self is Fill ==> r is None || exists|value: Settled<'v>, c: Coerced<'v>| #[trigger]
                c.captures(Coerced::neutral(), value.call()) && r == c.float_bits(),
    {
        self.coerce().into_primitive().into_f64_bits()
    }

    /// The value as a character: absent unless that is its kind. For a
    /// structured value the kind is that of what its coercion gave.
    pub fn as_char(&self) -> (r: Option<char>)
        ensures
            self.is_plain() ==> r == self.own_char(),
            *self matches Inner::Sval(v) ==> exists|c: Coerced<'v>| #[trigger]
                call_ensures(structured::coerce, (v,), c) && r == c.character(),
            self is Fill ==> r is None || exists|value: Settled<'v>, c: Coerced<'v>| #[trigger]
                c.captures(Coerced::neutral(), value.call()) && r == c.character(),
    {
        self.coerce().into_primitive().into_char()
    }

    /// The value as a boolean: absent unless that is its kind. For a
    /// structured value the kind is that of what its coercion gave.
    pub fn as_bool(&self) -> (r: Option<bool>)
        ensures
            self.is_plain() ==> r == self.own_bool(),
            *self matches Inner::Sval(v) ==> exists|c: Coerced<'v>| #[trigger]
                call_ensures(structured::coerce, (v,), c) && r == c.boolean(),
            self is Fill ==> r is None || exists|value: Settled<'v>, c: Coerced<'v>| #[trigger]
                c.captures(Coerced::neutral(), value.call()) && r == c.boolean(),
    {
        self.coerce().into_primitive().into_bool()
    }

    /// The value as owned text: a copy of the string that the value is or
    /// gives, absent where it is or gives anything else. For a structured
    /// value it is the text that its coercion gave.
    pub fn to_str(&self) -> (r: Option<String>)
        ensures
            self.is_plain() ==> match self.own_str() {
                Some(value) => r matches Some(s) && s@ == value@,
                None => r is None,
            },
            *self matches Inner::Sval(v) ==> exists|c: Coerced<'v>| #[trigger]
                call_ensures(structured::coerce, (v,), c) && c.hands_out(r),
            self is Fill ==> r is None || exists|value: Settled<'v>, c: Coerced<'v>| #[trigger]
                c.captures(Coerced::neutral(), value.call()) && c.hands_out(r),
    {
        self.coerce().into_string()
    }
}

/// Reduces what a deferred value left of its fill to what a typed projection
/// reads: `filled` is what the fill returned, and `slot` the slot it was
/// handed.
///
/// A failed fill counts as no value, and so does a slot that was left empty:
/// either leaves the neutral state. After a successful fill the value in the
/// slot is dispatched once into a consumer that starts in the neutral state.
pub fn coerce_filled<'v>(filled: Result<(), VisitError>, slot: Slot<'v>) -> (r: Coerced<'v>)
    ensures
        r.is_owned(),
        filled is Err ==> r == Coerced::<'v>::neutral(),
        filled is Ok ==> match slot.content() {
            Some(value) => r.captures(Coerced::neutral(), value.call()),
            None => r == Coerced::<'v>::neutral(),
        },
{
    let mut coerce = Coerce::new();
    let _ = dispatch_filled(filled, slot, &mut coerce);
    coerce.state
}

} // verus!
