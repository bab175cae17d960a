//! Capturing a value.

use vstd::prelude::*;
use vstd::std_specs::convert::FromSpecImpl;
use crate::fill::Fill;
use crate::inner::Inner;
use crate::primitive::Primitive;
use crate::structured::SvalRef;

verus! {

/// A captured value, under the name by which its producers know it.
pub type Value<'v> = Inner<'v>;

impl<'v> Value<'v> {
    /// Get a value from a debuggable type.
    pub fn from_debug<T>(value: &'v T) -> (r: Self) where T: core::fmt::Debug
        ensures
            r == Inner::Debug(value),
    {
        Inner::Debug(value)
    }

    /// Get a value from a displayable type.
    pub fn from_display<T>(value: &'v T) -> (r: Self) where T: core::fmt::Display
        ensures
            r == Inner::Display(value),
    {
        Inner::Display(value)
    }

    /// Get a value from a fillable type.
    pub fn from_fill<T>(value: &'v T) -> (r: Self) where T: Fill
        ensures
            r == Inner::Fill(value),
    {
        Inner::Fill(value)
    }

    /// Get a value from a structured type.
    pub fn from_sval<T>(value: &'v T) -> (r: Self) where T: sval::value::Value
        ensures
            r is Sval,
    {
        Inner::Sval(SvalRef::capture(value))
    }

    /// Get a value from the bit pattern of a 64-bit float.
    pub fn from_f64_bits(bits: u64) -> (r: Self)
        ensures
            r == Inner::Primitive(Primitive::Float(bits)),
    {
        Inner::Primitive(Primitive::Float(bits))
    }

    /// Get a value that is an explicit absence.
    pub fn absent() -> (r: Self)
        ensures
            r == Inner::<'v>::Primitive(Primitive::Absent),
    {
        Inner::Primitive(Primitive::Absent)
    }
}

impl<'v> From<Primitive<'v>> for Inner<'v> {
    fn from(value: Primitive<'v>) -> (r: Self) {
        Inner::Primitive(value)
    }
}

impl<'v> FromSpecImpl<Primitive<'v>> for Inner<'v> {
    open spec fn obeys_from_spec() -> bool {
        true
    }

    open spec fn from_spec(value: Primitive<'v>) -> Self {
        Inner::Primitive(value)
    }
}

impl<'v> From<u64> for Inner<'v> {
    fn from(value: u64) -> (r: Self) {
        Inner::Primitive(Primitive::Unsigned(value))
    }
}

impl<'v> FromSpecImpl<u64> for Inner<'v> {
    open spec fn obeys_from_spec() -> bool {
        true
    }

    open spec fn from_spec(value: u64) -> Self {
        Inner::Primitive(Primitive::Unsigned(value))
    }
}

impl<'v> From<i64> for Inner<'v> {
    fn from(value: i64) -> (r: Self) {
        Inner::Primitive(Primitive::Signed(value))
    }
}

impl<'v> FromSpecImpl<i64> for Inner<'v> {
    open spec fn obeys_from_spec() -> bool {
        true
    }

    open spec fn from_spec(value: i64) -> Self {
        Inner::Primitive(Primitive::Signed(value))
    }
}

impl<'v> From<bool> for Inner<'v> {
    fn from(value: bool) -> (r: Self) {
        Inner::Primitive(Primitive::Bool(value))
    }
}

impl<'v> FromSpecImpl<bool> for Inner<'v> {
    open spec fn obeys_from_spec() -> bool {
        true
    }

    open spec fn from_spec(value: bool) -> Self {
        Inner::Primitive(Primitive::Bool(value))
    }
}

impl<'v> From<char> for Inner<'v> {
    fn from(value: char) -> (r: Self) {
        Inner::Primitive(Primitive::Char(value))
    }
}

impl<'v> FromSpecImpl<char> for Inner<'v> {
    open spec fn obeys_from_spec() -> bool {
        true
    }

    open spec fn from_spec(value: char) -> Self {
        Inner::Primitive(Primitive::Char(value))
    }
}

impl<'v> From<&'v str> for Inner<'v> {
    fn from(value: &'v str) -> (r: Self) {
        Inner::Primitive(Primitive::Str(value))
    }
}

impl<'v> FromSpecImpl<&'v str> for Inner<'v> {
    open spec fn obeys_from_spec() -> bool {
        true
    }

    open spec fn from_spec(value: &'v str) -> Self {
        Inner::Primitive(Primitive::Str(value))
    }
}

} // verus!
