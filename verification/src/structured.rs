//! The bridge to the `sval` structured-value protocol.

use std::fmt::Write;
use vstd::prelude::*;
use crate::coerce::Coerced;
use crate::error::VisitError;
use crate::float::Floats;
use crate::inner::{Inner, Settled};
use crate::primitive::Primitive;
use crate::visitor::{Call, Text, Visitor};

verus! {

/// The error of the `sval` protocol.
#[verifier::external_type_specification]
#[verifier::external_body]
pub struct ExSvalError(sval::Error);

/// The stream that `sval` hands to a value.
#[verifier::external_type_specification]
#[verifier::external_body]
pub struct ExSvalStream<'a>(sval::stream::RefMutStream<'a>);

/// The formatting arguments that `std` builds for a formatting macro.
#[verifier::external_type_specification]
#[verifier::external_body]
pub struct ExArguments<'a>(core::fmt::Arguments<'a>);

/// A borrowed value that streams its structure through `sval`.
///
/// It stands for a `&dyn sval::Value`; nothing of the value behind it is
/// visible to the proofs of this library.
#[verifier::external_body]
pub struct SvalRef<'v> {
    value: &'v dyn sval::value::Value,
}

impl<'v> Clone for SvalRef<'v> {
    /// Copies the borrow: the result refers to the same value.
    #[verifier::external_body]
    fn clone(&self) -> (r: Self)
        ensures
            r == *self,
    {
        SvalRef { value: self.value }
    }
}

impl<'v> Copy for SvalRef<'v> {}

impl<'v> SvalRef<'v> {
    /// Borrows `value` behind its `sval::Value` implementation. Nothing is
    /// claimed of the result.
    #[verifier::external_body]
    pub(crate) fn capture<T: sval::value::Value>(value: &'v T) -> (r: SvalRef<'v>) {
        SvalRef { value }
    }
}

/// The message of every failure that crosses the bridge, in either direction.
pub open spec fn failure_message() -> Seq<char> {
    "`sval` serialization failed"@
}

impl VisitError {
    /// The failure that stands for any failure of the structured protocol.
    pub fn from_sval(_e: sval::Error) -> (r: VisitError)
        ensures
            r is Msg,
            r.message() == failure_message(),
    {
        VisitError::msg("`sval` serialization failed")
    }

    /// The failure of the structured protocol that stands for any failed visit:
    /// the error that carries the message of the bridge.
    pub fn into_sval(self) -> (r: sval::Error)
        ensures
            r == bridge_failure(),
    {
        sval_error("`sval` serialization failed")
    }
}

/// The error of the protocol that carries the message `msg`.
pub uninterp spec fn sval_msg(msg: Seq<char>) -> sval::Error;

/// The one error that a failed visit becomes when it crosses the bridge.
pub open spec fn bridge_failure() -> sval::Error {
    sval_msg(failure_message())
}

/// `sval::Error::msg`: the error of the protocol that carries `msg`, which is
/// fixed by the message alone.
#[verifier::external_body]
fn sval_error(msg: &'static str) -> (r: sval::Error)
    ensures
        r == sval_msg(msg@),
{
    sval::Error::msg(msg)
}

/// `RefMutStream::u64`: emits an unsigned integer. Whether the stream takes it
/// is the stream's own matter.
#[verifier::external_body]
fn stream_u64(stream: &mut sval::value::Stream<'_>, v: u64) -> Result<(), sval::Error> {
    stream.u64(v)
}

/// `RefMutStream::i64`: emits a signed integer.
#[verifier::external_body]
fn stream_i64(stream: &mut sval::value::Stream<'_>, v: i64) -> Result<(), sval::Error> {
    stream.i64(v)
}

/// `RefMutStream::bool`: emits a boolean.
#[verifier::external_body]
fn stream_bool(stream: &mut sval::value::Stream<'_>, v: bool) -> Result<(), sval::Error> {
    stream.bool(v)
}

/// `RefMutStream::char`: emits a character.
#[verifier::external_body]
fn stream_char(stream: &mut sval::value::Stream<'_>, v: char) -> Result<(), sval::Error> {
    stream.char(v)
}

/// `RefMutStream::str`: emits a string slice.
#[verifier::external_body]
fn stream_str(stream: &mut sval::value::Stream<'_>, v: &str) -> Result<(), sval::Error> {
    stream.str(v)
}

/// `RefMutStream::none`: emits an empty value.
#[verifier::external_body]
fn stream_none(stream: &mut sval::value::Stream<'_>) -> Result<(), sval::Error> {
    stream.none()
}

/// `RefMutStream::any`: lets the structured value emit itself.
#[verifier::external_body]
fn stream_any(stream: &mut sval::value::Stream<'_>, v: SvalRef<'_>) -> Result<(), sval::Error> {
    stream.any(v.value)
}

/// A stream seen as a target of `write!`.
struct Formatted<'a, 'b> {
    stream: &'a mut sval::value::Stream<'b>,
}

impl<'a, 'b> Formatted<'a, 'b> {
    /// `RefMutStream::fmt`: emits formatting arguments as one value.
    #[verifier::external_body]
    fn write_fmt(&mut self, args: core::fmt::Arguments<'_>) -> Result<(), sval::Error> {
        self.stream.fmt(args)
    }
}

/// Emits the debug representation of `v` as one formatted value, through
/// `RefMutStream::fmt`.
#[verifier::external_body]
fn stream_debug(stream: &mut sval::value::Stream<'_>, v: &dyn core::fmt::Debug) -> Result<
    (),
    sval::Error,
> {
    write!(Formatted { stream }, "{:?}", v)
}

/// Emits the display representation of `v` as one formatted value, through
/// `RefMutStream::fmt`.
#[verifier::external_body]
fn stream_display(stream: &mut sval::value::Stream<'_>, v: &dyn core::fmt::Display) -> Result<
    (),
    sval::Error,
> {
    write!(Formatted { stream }, "{}", v)
}

/// `sval::fmt::to_debug`: the debug representation that `sval` gives a
/// structured value, written into a fresh string with `write!`. The text is
/// the value's own matter, and so is a failure.
#[verifier::external_body]
pub(crate) fn debug_text(v: SvalRef<'_>) -> Result<String, core::fmt::Error> {
    let mut out = String::new();
    match write!(out, "{:?}", sval::fmt::to_debug(v.value)) {
        Ok(()) => Ok(out),
        Err(e) => Err(e),
    }
}

/// Whether `r` is the form that the outcome `out` of the protocol takes as
/// the outcome of a visit: success stays success, and every failure becomes
/// the one failure of the bridge.
pub open spec fn translates(out: Result<(), sval::Error>, r: Result<(), VisitError>) -> bool {
    &&& out is Ok <==> r is Ok
    &&& r matches Err(e) ==> e is Msg && e.message() == failure_message()
}

/// Whether `out` is what came back from the one emission that forwards
/// `call` into `stream`: each kind of call by the emission of the same name,
/// a value that only renders as one formatted value, a float by the float
/// operations `floats`, and a structured value by letting it emit itself.
pub closed spec fn forwards<F: Floats>(
    floats: &F,
    call: Call<'_>,
    stream: &mut sval::stream::RefMutStream<'_>,
    out: Result<(), sval::Error>,
) -> bool {
    match call {
        Call::Signed(v) => call_ensures(stream_i64, (stream, v), out),
        Call::Unsigned(v) => call_ensures(stream_u64, (stream, v), out),
        Call::Float(bits) => call_ensures(F::stream, (floats, bits, stream), out),
        Call::Bool(v) => call_ensures(stream_bool, (stream, v), out),
        Call::Char(v) => call_ensures(stream_char, (stream, v), out),
        Call::Str(v) => call_ensures(stream_str, (stream, v), out),
        Call::Absent => call_ensures(stream_none, (stream,), out),
        Call::Debug(Text::Debug(v)) => call_ensures(stream_debug, (stream, v), out),
        Call::Debug(Text::Display(v)) => call_ensures(stream_display, (stream, v), out),
        Call::Sval(v) => call_ensures(stream_any, (stream, v), out),
    }
}

/// Gives an outcome of the protocol the form of the outcome of a visit.
pub fn visited(r: Result<(), sval::Error>) -> (out: Result<(), VisitError>)
    ensures
        translates(r, out),
{
    match r {
        Ok(()) => Ok(()),
        Err(e) => Err(VisitError::from_sval(e)),
    }
}

/// The consumer that forwards what it receives to a structured stream, each
/// kind to the emission of the same name.
pub struct SvalVisitor<'a, 'b, 'f, F: Floats> {
    pub stream: &'a mut sval::value::Stream<'b>,
    pub floats: &'f F,
}

impl<'a, 'b, 'f, F: Floats> Visitor for SvalVisitor<'a, 'b, 'f, F> {
    /// A call is forwarded by exactly one emission into the stream as it
    /// stands, the one that matches the call, and what came back from that
    /// emission is returned in the form of the outcome of a visit. What the
    /// stream does with an emission is its own matter.
    open spec fn step(pre: Self, call: Call<'_>, post: Self, r: Result<(), VisitError>) -> bool {
        &&& post.floats == pre.floats
        &&& exists|stream: &mut sval::stream::RefMutStream<'_>, out: Result<(), sval::Error>|
            *stream == *pre.stream && #[trigger] forwards(pre.floats, call, stream, out)
                && translates(out, r)
    }

    fn debug(&mut self, v: Text<'_>) -> (r: Result<(), VisitError>) {
        match v {
            Text::Debug(d) => {
                let out = stream_debug(self.stream, d);
                assert(forall|s: &mut sval::stream::RefMutStream<'_>, o: Result<(), sval::Error>| #[trigger]
                    call_ensures(stream_debug, (s, d), o) ==> forwards(
                        self.floats,
                        Call::Debug(v),
                        s,
                        o,
                    ));
                visited(out)
            },
            Text::Display(d) => {
                let out = stream_display(self.stream, d);
                assert(forall|s: &mut sval::stream::RefMutStream<'_>, o: Result<(), sval::Error>| #[trigger]
                    call_ensures(stream_display, (s, d), o) ==> forwards(
                        self.floats,
                        Call::Debug(v),
                        s,
                        o,
                    ));
                visited(out)
            },
        }
    }

    fn u64(&mut self, v: u64) -> (r: Result<(), VisitError>) {
        let out = stream_u64(self.stream, v);
        assert(forall|s: &mut sval::stream::RefMutStream<'_>, o: Result<(), sval::Error>| #[trigger]
            call_ensures(stream_u64, (s, v), o) ==> forwards(
                self.floats,
                Call::Unsigned(v),
                s,
                o,
            ));
        visited(out)
    }

    fn i64(&mut self, v: i64) -> (r: Result<(), VisitError>) {
        let out = stream_i64(self.stream, v);
        assert(forall|s: &mut sval::stream::RefMutStream<'_>, o: Result<(), sval::Error>| #[trigger]
            call_ensures(stream_i64, (s, v), o) ==> forwards(self.floats, Call::Signed(v), s, o));
        visited(out)
    }

    fn float(&mut self, bits: u64) -> (r: Result<(), VisitError>) {
        let out = self.floats.stream(bits, self.stream);
        assert(forall|s: &mut sval::stream::RefMutStream<'_>, o: Result<(), sval::Error>| #[trigger]
            call_ensures(F::stream, (self.floats, bits, s), o) ==> forwards(
                self.floats,
                Call::Float(bits),
                s,
                o,
            ));
        visited(out)
    }

    fn bool(&mut self, v: bool) -> (r: Result<(), VisitError>) {
        let out = stream_bool(self.stream, v);
        assert(forall|s: &mut sval::stream::RefMutStream<'_>, o: Result<(), sval::Error>| #[trigger]
            call_ensures(stream_bool, (s, v), o) ==> forwards(self.floats, Call::Bool(v), s, o));
        visited(out)
    }

    fn char(&mut self, v: char) -> (r: Result<(), VisitError>) {
        let out = stream_char(self.stream, v);
        assert(forall|s: &mut sval::stream::RefMutStream<'_>, o: Result<(), sval::Error>| #[trigger]
            call_ensures(stream_char, (s, v), o) ==> forwards(self.floats, Call::Char(v), s, o));
        visited(out)
    }

    fn str(&mut self, v: &str) -> (r: Result<(), VisitError>) {
        let out = stream_str(self.stream, v);
        assert(forall|s: &mut sval::stream::RefMutStream<'_>, o: Result<(), sval::Error>| #[trigger]
            call_ensures(stream_str, (s, v), o) ==> forwards(self.floats, Call::Str(v), s, o));
        visited(out)
    }

    fn none(&mut self) -> (r: Result<(), VisitError>) {
        let out = stream_none(self.stream);
        assert(forall|s: &mut sval::stream::RefMutStream<'_>, o: Result<(), sval::Error>| #[trigger]
            call_ensures(stream_none, (s,), o) ==> forwards(self.floats, Call::Absent, s, o));
        visited(out)
    }

    fn sval(&mut self, v: SvalRef<'_>) -> (r: Result<(), VisitError>) {
        let out = stream_any(self.stream, v);
        assert(forall|s: &mut sval::stream::RefMutStream<'_>, o: Result<(), sval::Error>| #[trigger]
            call_ensures(stream_any, (s, v), o) ==> forwards(self.floats, Call::Sval(v), s, o));
        visited(out)
    }
}

/// The stream behind the typed projections of a structured value: it keeps
/// the integer, boolean, character or string it was last handed, and refuses
/// every other emission, a float included.
pub struct SvalCoerce<'v> {
    state: Coerced<'v>,
}

impl<'v> SvalCoerce<'v> {
    /// A string that was captured is always an owned one.
    #[verifier::type_invariant]
    spec fn owns_its_text(self) -> bool {
        self.state.is_owned()
    }

    /// What has been captured.
    pub closed spec fn state(&self) -> Coerced<'v> {
        self.state
    }

    /// A stream that has captured nothing yet.
    pub fn new() -> (r: SvalCoerce<'v>)
        ensures
            r.state() == Coerced::<'v>::neutral(),
    {
        SvalCoerce { state: Coerced::Primitive(Primitive::Absent) }
    }

    /// Captures a scalar in place of what was captured before, and tells the
    /// protocol that it was taken.
    pub fn capture(&mut self, value: Primitive<'v>) -> (r: Result<(), sval::Error>)
        requires
            !(value is Str),
        ensures
            r is Ok,
            final(self).state() == Coerced::Primitive(value),
    {
        self.state = Coerced::Primitive(value);
        Ok(())
    }

    /// Captures a copy of `v` in place of what was captured before, and tells
    /// the protocol that it was taken.
    pub fn capture_str(&mut self, v: &str) -> (r: Result<(), sval::Error>)
        ensures
            r is Ok,
            final(self).state() matches Coerced::String(s) && s@ == v@,
    {
        self.state = Coerced::String(v.to_owned());
        Ok(())
    }

    /// Hands out what was captured.
    pub fn finish(self) -> (r: Coerced<'v>)
        ensures
            r == self.state(),
            r.is_owned(),
    {
        proof {
            use_type_invariant(&self);
        }
        self.state
    }
}

impl<'v> sval::stream::Stream for SvalCoerce<'v> {
    fn u64(&mut self, v: u64) -> (r: Result<(), sval::Error>)
        ensures
            r is Ok,
            final(self).state() == Coerced::Primitive(Primitive::Unsigned(v)),
    {
        self.capture(Primitive::Unsigned(v))
    }

    fn i64(&mut self, v: i64) -> (r: Result<(), sval::Error>)
        ensures
            r is Ok,
            final(self).state() == Coerced::Primitive(Primitive::Signed(v)),
    {
        self.capture(Primitive::Signed(v))
    }

    fn char(&mut self, v: char) -> (r: Result<(), sval::Error>)
        ensures
            r is Ok,
            final(self).state() == Coerced::Primitive(Primitive::Char(v)),
    {
        self.capture(Primitive::Char(v))
    }

    fn bool(&mut self, v: bool) -> (r: Result<(), sval::Error>)
        ensures
            r is Ok,
            final(self).state() == Coerced::Primitive(Primitive::Bool(v)),
    {
        self.capture(Primitive::Bool(v))
    }

    fn str(&mut self, s: &str) -> (r: Result<(), sval::Error>)
        ensures
            r is Ok,
            final(self).state() matches Coerced::String(t) && t@ == s@,
    {
        self.capture_str(s)
    }
}

/// `sval::stream`: lets `v` emit its structure into `collector`. Which
/// emissions a value makes is its own matter, so nothing is claimed of the
/// outcome.
#[verifier::external_body]
fn stream_into(collector: &mut SvalCoerce<'_>, v: SvalRef<'_>) -> Result<(), sval::Error> {
    sval::stream(collector, v.value)
}

/// Whether `out` is what came back from letting the structured value `v`
/// emit itself into `collector`.
pub closed spec fn collects(
    collector: &mut SvalCoerce<'_>,
    v: SvalRef<'_>,
    out: Result<(), sval::Error>,
) -> bool {
    call_ensures(stream_into, (collector, v), out)
}

/// Reduces a structured value to what a typed projection reads.
///
/// The value emits itself into a collector that starts in the neutral state,
/// and what the collector holds in the end is the result; a failure of the
/// stream is dropped.
pub fn coerce<'v>(v: SvalRef<'_>) -> (r: Coerced<'v>)
    ensures
        r.is_owned(),
        exists|collector: &mut SvalCoerce<'v>, out: Result<(), sval::Error>|
            collector.state() == Coerced::<'v>::neutral() && #[trigger] collects(
                collector,
                v,
                out,
            ) && r == final(collector).state(),
{
    let mut collector = SvalCoerce::new();
    let out = stream_into(&mut collector, v);
    assert(forall|c: &mut SvalCoerce<'v>, o: Result<(), sval::Error>| #[trigger]
        call_ensures(stream_into, (c, v), o) ==> collects(c, v, o));
    collector.finish()
}

impl<'v> Inner<'v> {
    /// Streams the value into `stream`: the value is dispatched once into a
    /// consumer that forwards it.
    ///
    /// A value that is not deferred is forwarded by the one emission that
    /// matches it, made into the stream as it stands, and the streaming
    /// succeeds exactly when that emission does. A deferred value that fails
    /// to fill in makes no emission. Every failure comes back as the one
    /// failure of the bridge.
    pub fn stream<F: Floats>(&self, floats: &F, stream: &mut sval::value::Stream<'_>) -> (r: Result<
        (),
        sval::Error,
    >)
        ensures
            r matches Err(e) ==> e == bridge_failure(),
            self.settled() matches Some(value) ==> exists|
                s: &mut sval::stream::RefMutStream<'_>,
                out: Result<(), sval::Error>,
            |
                *s == *old(stream) && #[trigger] forwards(floats, value.call(), s, out) && (out
                    is Ok <==> r is Ok),
            self is Fill ==> r is Err || exists|
                value: Settled<'v>,
                s: &mut sval::stream::RefMutStream<'_>,
                out: Result<(), sval::Error>,
            |
                *s == *old(stream) && #[trigger] forwards(floats, value.call(), s, out) && out
                    is Ok,
    {
        let mut visitor = SvalVisitor { stream, floats };
        match self.visit(&mut visitor) {
            Ok(()) => Ok(()),
            Err(e) => Err(e.into_sval()),
        }
    }
}

/// A captured value together with the float operations it is streamed with:
/// a structured value in its own right.
pub struct Streamed<'a, 'v, F: Floats> {
    pub value: &'a Inner<'v>,
    pub floats: &'a F,
}

impl<'a, 'v, F: Floats> sval::value::Value for Streamed<'a, 'v, F> {
    /// Streams the captured value, as [`Inner::stream`] does with the float
    /// operations held.
    fn stream(&self, stream: &mut sval::value::Stream<'_>) -> (r: Result<(), sval::Error>)
        ensures
            r matches Err(e) ==> e == bridge_failure(),
            self.value.settled() matches Some(value) ==> exists|
                s: &mut sval::stream::RefMutStream<'_>,
                out: Result<(), sval::Error>,
            |
                *s == *old(stream) && #[trigger] forwards(self.floats, value.call(), s, out)
                    && (out is Ok <==> r is Ok),
    {
        self.value.stream(self.floats, stream)
    }
}

} // verus!
