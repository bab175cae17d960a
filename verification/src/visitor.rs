//! The contract between a captured value and its consumers.

use vstd::prelude::*;
use crate::error::VisitError;
use crate::structured::SvalRef;

verus! {

/// A borrowed value that is only known to render as text.
#[derive(Clone, Copy)]
pub enum Text<'a> {
    /// Renders through its debug representation.
    Debug(&'a dyn core::fmt::Debug),
    /// Renders through its display representation.
    Display(&'a dyn core::fmt::Display),
}

/// One call of a [`Visitor`] method, with what was handed to it.
#[derive(Clone, Copy)]
pub enum Call<'a> {
    Signed(i64),
    Unsigned(u64),
    Float(u64),
    Bool(bool),
    Char(char),
    Str(&'a str),
    Absent,
    Debug(Text<'a>),
    Sval(SvalRef<'a>),
}

/// A consumer that receives a single captured value.
///
/// Each method stands for one kind of value. What a call does to the consumer
/// and what it returns is the consumer's own relation [`Visitor::step`]; every
/// method is one step on the call that bears its name.
pub trait Visitor: Sized {
    /// Whether one call `call` can take the consumer from `pre` to `post` and
    /// return `r`.
    spec fn step(pre: Self, call: Call<'_>, post: Self, r: Result<(), VisitError>) -> bool;

    /// Receives a value that only renders as text.
    fn debug(&mut self, v: Text<'_>) -> (r: Result<(), VisitError>)
        ensures
            Self::step(*old(self), Call::Debug(v), *final(self), r),
    ;

    /// Receives a displayable value. Unless a consumer says otherwise, it is
    /// handed on to [`Visitor::debug`], which renders it through its display
    /// representation.
    fn display(&mut self, v: Text<'_>) -> (r: Result<(), VisitError>)
        requires
            v is Display,
        ensures
            Self::step(*old(self), Call::Debug(v), *final(self), r),
    {
        self.debug(v)
    }

    /// Receives an unsigned integer.
    fn u64(&mut self, v: u64) -> (r: Result<(), VisitError>)
        ensures
            Self::step(*old(self), Call::Unsigned(v), *final(self), r),
    ;

    /// Receives a signed integer.
    fn i64(&mut self, v: i64) -> (r: Result<(), VisitError>)
        ensures
            Self::step(*old(self), Call::Signed(v), *final(self), r),
    ;

    /// Receives the bit pattern of a 64-bit float.
    fn float(&mut self, bits: u64) -> (r: Result<(), VisitError>)
        ensures
            Self::step(*old(self), Call::Float(bits), *final(self), r),
    ;

    /// Receives a boolean.
    fn bool(&mut self, v: bool) -> (r: Result<(), VisitError>)
        ensures
            Self::step(*old(self), Call::Bool(v), *final(self), r),
    ;

    /// Receives a character.
    fn char(&mut self, v: char) -> (r: Result<(), VisitError>)
        ensures
            Self::step(*old(self), Call::Char(v), *final(self), r),
    ;

    /// Receives a string slice.
    fn str(&mut self, v: &str) -> (r: Result<(), VisitError>)
        ensures
            Self::step(*old(self), Call::Str(v), *final(self), r),
    ;

    /// Receives an explicit absence.
    fn none(&mut self) -> (r: Result<(), VisitError>)
        ensures
            Self::step(*old(self), Call::Absent, *final(self), r),
    ;

    /// Receives a structured value.
    fn sval(&mut self, v: SvalRef<'_>) -> (r: Result<(), VisitError>)
        ensures
            Self::step(*old(self), Call::Sval(v), *final(self), r),
    ;
}

} // verus!
