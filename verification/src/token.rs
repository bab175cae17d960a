//! The recording consumer: which calls a captured value makes.

use vstd::prelude::*;
use crate::error::VisitError;
use crate::inner::{Inner, Settled};
use crate::render;
use crate::structured::SvalRef;
use crate::visitor::{Call, Text, Visitor};

verus! {

/// The record of one consumer call.
#[derive(Debug, Clone, PartialEq)]
pub enum Token {
    Unsigned(u64),
    Signed(i64),
    Float(u64),
    Char(char),
    Bool(bool),
    /// A string slice, or the rendering of a value that only renders.
    Str(String),
    Absent,
    Sval,
}

impl Token {
    /// Whether this token is a record of `call`.
    pub open spec fn records(&self, call: Call<'_>) -> bool {
        match call {
            Call::Signed(v) => *self == Token::Signed(v),
            Call::Unsigned(v) => *self == Token::Unsigned(v),
            Call::Float(bits) => *self == Token::Float(bits),
            Call::Bool(v) => *self == Token::Bool(v),
            Call::Char(v) => *self == Token::Char(v),
            Call::Str(v) => *self matches Token::Str(s) && s@ == v@,
            Call::Absent => *self is Absent,
            Call::Debug(v) => *self matches Token::Str(s) && render::renders_text(v, Ok(s)),
            Call::Sval(_) => *self is Sval,
        }
    }
}

/// Whether `call` hands over a value that only renders, and the one rendering
/// of that value failed.
pub open spec fn fails_to_render(call: Call<'_>) -> bool {
    call matches Call::Debug(v) && exists|failure: core::fmt::Error| #[trigger]
        render::renders_text(v, Err(failure))
}

/// The consumer that keeps a record of every call it receives, in order.
pub struct Recorder {
    pub calls: Vec<Token>,
}

impl Recorder {
    /// A recorder that has received nothing.
    pub fn new() -> (r: Recorder)
        ensures
            r.calls@.len() == 0,
    {
        Recorder { calls: Vec::new() }
    }

    /// Appends `token` to the record.
    fn record(&mut self, token: Token)
        ensures
            final(self).calls@ == old(self).calls@.push(token),
            final(self).calls@.drop_last() == old(self).calls@,
            final(self).calls@.last() == token,
    {
        self.calls.push(token);
        assert(self.calls@.drop_last() =~= old(self).calls@);
    }

    /// Records a rendering, or reports that there is none.
    fn record_rendered(&mut self, rendered: Result<String, core::fmt::Error>) -> (r: Result<
        (),
        VisitError,
    >)
        ensures
            match rendered {
                Ok(text) => {
                    &&& r is Ok
                    &&& final(self).calls@ == old(self).calls@.push(Token::Str(text))
                    &&& final(self).calls@.drop_last() == old(self).calls@
                    &&& final(self).calls@.last() == Token::Str(text)
                },
                Err(_) => r == Err::<(), VisitError>(VisitError::Fmt) && final(self).calls@ == old(
                    self,
                ).calls@,
            },
    {
        match rendered {
            Ok(text) => {
                self.record(Token::Str(text));
                Ok(())
            },
            Err(e) => Err(VisitError::from_fmt(e)),
        }
    }
}

impl Visitor for Recorder {
    /// A call adds exactly one token, a record of that call, and succeeds.
    /// Only a value whose one rendering failed adds none, and reports a
    /// formatting failure.
    open spec fn step(pre: Self, call: Call<'_>, post: Self, r: Result<(), VisitError>) -> bool {
        match r {
            Ok(_) => {
                &&& post.calls@.len() == pre.calls@.len() + 1
                &&& post.calls@.drop_last() == pre.calls@
                &&& post.calls@.last().records(call)
            },
            Err(e) => fails_to_render(call) && e == VisitError::Fmt && post.calls@ == pre.calls@,
        }
    }

    fn debug(&mut self, v: Text<'_>) -> (r: Result<(), VisitError>) {
        let rendered = render::render_text(v);
        assert(rendered matches Ok(text) ==> render::renders_text(v, Ok(text)));
        assert(rendered matches Err(failure) ==> render::renders_text(v, Err(failure)));
        self.record_rendered(rendered)
    }

    fn u64(&mut self, v: u64) -> (r: Result<(), VisitError>) {
        self.record(Token::Unsigned(v));
        Ok(())
    }

    fn i64(&mut self, v: i64) -> (r: Result<(), VisitError>) {
        self.record(Token::Signed(v));
        Ok(())
    }

    fn float(&mut self, bits: u64) -> (r: Result<(), VisitError>) {
        self.record(Token::Float(bits));
        Ok(())
    }

    fn bool(&mut self, v: bool) -> (r: Result<(), VisitError>) {
        self.record(Token::Bool(v));
        Ok(())
    }

    fn char(&mut self, v: char) -> (r: Result<(), VisitError>) {
        self.record(Token::Char(v));
        Ok(())
    }

    fn str(&mut self, v: &str) -> (r: Result<(), VisitError>) {
        let text = v.to_owned();
        self.record(Token::Str(text));
        Ok(())
    }

    fn none(&mut self) -> (r: Result<(), VisitError>) {
        self.record(Token::Absent);
        Ok(())
    }

    fn sval(&mut self, v: SvalRef<'_>) -> (r: Result<(), VisitError>) {
        self.record(Token::Sval);
        Ok(())
    }
}

impl<'v> Inner<'v> {
    /// The records of the calls that one dispatch of the value makes.
    ///
    /// A value that is not deferred makes one call, the one that matches it;
    /// the record is empty only where the one rendering of a value that only
    /// renders failed. A deferred value makes at most one call.
    pub fn to_tokens(&self) -> (r: Vec<Token>)
        ensures
            r@.len() <= 1,
            self.settled() matches Some(value) ==> {
                &&& r@.len() == 1 ==> r@[0].records(value.call())
                &&& r@.len() == 0 ==> fails_to_render(value.call())
            },
            self is Fill ==> r@.len() == 0 || exists|value: Settled<'v>| #[trigger]
                r@[0].records(value.call()),
    {
        let mut recorder = Recorder::new();
        let _ = self.visit(&mut recorder);
        recorder.calls
    }

    /// The record of the one call that a dispatch of the value makes, if it
    /// makes one.
    pub fn to_token(&self) -> (r: Option<Token>)
        ensures
            self.settled() matches Some(value) ==> {
                &&& r matches Some(token) ==> token.records(value.call())
                &&& r is None ==> fails_to_render(value.call())
            },
            self is Fill ==> r is None || exists|value: Settled<'v>| #[trigger]
                r->0.records(value.call()),
    {
        let mut tokens = self.to_tokens();
        tokens.pop()
    }
}

} // verus!
