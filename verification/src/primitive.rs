//! The closed set of scalar kinds a captured value can reduce to.

use vstd::prelude::*;

verus! {

/// A scalar that is copied freely and owns nothing.
///
/// A 64-bit float is carried as its IEEE 754 bit pattern.
#[derive(Clone, Copy, Debug)]
pub enum Primitive<'v> {
    Signed(i64),
    Unsigned(u64),
    Float(u64),
    Bool(bool),
    Char(char),
    Str(&'v str),
    /// An explicit absence.
    Absent,
}

impl<'v> Primitive<'v> {
    /// The string slice, if this is one.
    pub fn into_str(self) -> (r: Option<&'v str>)
        ensures
            r == match self {
                Primitive::Str(value) => Some(value),
                _ => None::<&'v str>,
            },
    {
        if let Primitive::Str(value) = self {
            Some(value)
        } else {
            None
        }
    }

    /// The unsigned integer, if this is one.
    pub fn into_u64(self) -> (r: Option<u64>)
        ensures
            r == match self {
                Primitive::Unsigned(value) => Some(value),
                _ => None::<u64>,
            },
    {
        if let Primitive::Unsigned(value) = self {
            Some(value)
        } else {
            None
        }
    }

    /// The signed integer, if this is one.
    pub fn into_i64(self) -> (r: Option<i64>)
        ensures
            r == match self {
                Primitive::Signed(value) => Some(value),
                _ => None::<i64>,
            },
    {
        if let Primitive::Signed(value) = self {
            Some(value)
        } else {
            None
        }
    }

    /// The bit pattern of the float, if this is one.
    pub fn into_f64_bits(self) -> (r: Option<u64>)
        ensures
            r == match self {
                Primitive::Float(bits) => Some(bits),
                _ => None::<u64>,
            },
    {
        if let Primitive::Float(bits) = self {
            Some(bits)
        } else {
            None
        }
    }

    /// The character, if this is one.
    pub fn into_char(self) -> (r: Option<char>)
        ensures
            r == match self {
                Primitive::Char(value) => Some(value),
                _ => None::<char>,
            },
    {
        if let Primitive::Char(value) = self {
            Some(value)
        } else {
            None
        }
    }

    /// The boolean, if this is one.
    pub fn into_bool(self) -> (r: Option<bool>)
        ensures
            r == match self {
                Primitive::Bool(value) => Some(value),
                _ => None::<bool>,
            },
    {
        if let Primitive::Bool(value) = self {
            Some(value)
        } else {
            None
        }
    }
}

} // verus!
