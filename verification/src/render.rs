//! The text consumer: rendering a captured value into a string.

use std::fmt::Write;
use vstd::prelude::*;
use crate::error::VisitError;
use crate::float::Floats;
use crate::inner::{Inner, Settled};
use crate::structured::{self, SvalRef};
use crate::visitor::{Call, Text, Visitor};

verus! {

/// The error of `std`'s formatting machinery.
#[verifier::external_type_specification]
#[verifier::external_body]
pub struct ExFmtError(core::fmt::Error);

/// The decimal digit for `d`, which is below ten.
pub open spec fn digit(d: nat) -> char {
    if d == 0 {
        '0'
    } else if d == 1 {
        '1'
    } else if d == 2 {
        '2'
    } else if d == 3 {
        '3'
    } else if d == 4 {
        '4'
    } else if d == 5 {
        '5'
    } else if d == 6 {
        '6'
    } else if d == 7 {
        '7'
    } else if d == 8 {
        '8'
    } else {
        '9'
    }
}

/// The decimal digits of `n`, most significant first, without leading zeros.
pub open spec fn decimal(n: nat) -> Seq<char>
    decreases n,
{
    if n < 10 {
        seq![digit(n)]
    } else {
        decimal(n / 10).push(digit(n % 10))
    }
}

/// The decimal digits of `v`, after a minus sign where `v` is negative.
pub open spec fn signed_decimal(v: int) -> Seq<char> {
    if v < 0 {
        seq!['-'] + decimal((-v) as nat)
    } else {
        decimal(v as nat)
    }
}

/// The debug text that `std` gives a character: the character between single
/// quotes, escaped where it would not show as itself.
pub uninterp spec fn char_debug(c: char) -> Seq<char>;

/// The debug text that `std` gives a string: its characters between double
/// quotes, escaped where they would not show as themselves.
pub uninterp spec fn str_debug(s: Seq<char>) -> Seq<char>;

/// The text that a call renders as, where the call alone fixes it: the debug
/// text of a scalar, of a string, or of an absence. The text of a float comes
/// from the caller's float operations, and that of a value that only renders
/// from the value.
pub open spec fn text_of(call: Call<'_>) -> Option<Seq<char>> {
    match call {
        Call::Signed(v) => Some(signed_decimal(v as int)),
        Call::Unsigned(v) => Some(decimal(v as nat)),
        Call::Bool(v) => Some(
            if v {
                "true"@
            } else {
                "false"@
            },
        ),
        Call::Char(v) => Some(char_debug(v)),
        Call::Str(v) => Some(str_debug(v@)),
        Call::Absent => Some("None"@),
        Call::Float(_) => None,
        Call::Debug(_) => None,
        Call::Sval(_) => None,
    }
}

/// `String::push_str`: appends `string` to the end of `s`.
pub assume_specification[ std::string::String::push_str ](
    s: &mut std::string::String,
    string: &str,
)
    ensures
        final(s)@ == old(s)@ + string@,
;

/// `String::push`: appends `ch` to the end of `s`.
pub assume_specification[ std::string::String::push ](s: &mut std::string::String, ch: char)
    ensures
        final(s)@ == old(s)@.push(ch),
;

/// The decimal digit for `d`.
fn digit_char(d: u64) -> (c: char)
    requires
        d < 10,
    ensures
        c == digit(d as nat),
{
    if d == 0 {
        '0'
    } else if d == 1 {
        '1'
    } else if d == 2 {
        '2'
    } else if d == 3 {
        '3'
    } else if d == 4 {
        '4'
    } else if d == 5 {
        '5'
    } else if d == 6 {
        '6'
    } else if d == 7 {
        '7'
    } else if d == 8 {
        '8'
    } else {
        '9'
    }
}

/// Appends the debug text of an unsigned integer: its decimal digits.
pub fn push_unsigned(buf: &mut String, n: u64)
    ensures
        final(buf)@ == old(buf)@ + decimal(n as nat),
    decreases n,
{
    if n >= 10 {
        push_unsigned(buf, n / 10);
    }
    buf.push(digit_char(n % 10));
    assert(buf@ =~= old(buf)@ + decimal(n as nat));
}

/// Appends the debug text of a signed integer: its decimal digits, after a
/// minus sign where it is negative.
pub fn push_signed(buf: &mut String, v: i64)
    ensures
        final(buf)@ == old(buf)@ + signed_decimal(v as int),
{
    if v < 0 {
        buf.push('-');
        let magnitude: u64 = if v == i64::MIN {
            9223372036854775808u64
        } else {
            (-v) as u64
        };
        push_unsigned(buf, magnitude);
        assert(buf@ =~= old(buf)@ + signed_decimal(v as int));
    } else {
        push_unsigned(buf, v as u64);
    }
}

/// The debug text of a character, as `format!` gives it.
#[verifier::external_body]
fn char_text(v: char) -> (r: String)
    ensures
        r@ == char_debug(v),
{
    format!("{:?}", v)
}

/// The debug text of a string, as `format!` gives it.
#[verifier::external_body]
fn str_text(v: &str) -> (r: String)
    ensures
        r@ == str_debug(v@),
{
    format!("{:?}", v)
}

/// The debug representation of `v`, written into a fresh string with
/// `write!`. The text is the value's own matter, and so is a failure.
#[verifier::external_body]
fn debug_text(v: &dyn core::fmt::Debug) -> Result<String, core::fmt::Error> {
    let mut out = String::new();
    match write!(out, "{:?}", v) {
        Ok(()) => Ok(out),
        Err(e) => Err(e),
    }
}

/// The display representation of `v`, written into a fresh string with
/// `write!`. The text is the value's own matter, and so is a failure.
#[verifier::external_body]
fn display_text(v: &dyn core::fmt::Display) -> Result<String, core::fmt::Error> {
    let mut out = String::new();
    match write!(out, "{}", v) {
        Ok(()) => Ok(out),
        Err(e) => Err(e),
    }
}

impl VisitError {
    /// The failure that stands for any failure of formatting.
    pub fn from_fmt(_e: core::fmt::Error) -> (r: VisitError)
        ensures
            r == VisitError::Fmt,
    {
        VisitError::Fmt
    }
}

/// Whether `rendered` is what came back from rendering `v` once, by its own
/// debug or display representation.
pub closed spec fn renders_text(v: Text<'_>, rendered: Result<String, core::fmt::Error>) -> bool {
    match v {
        Text::Debug(d) => call_ensures(debug_text, (d,), rendered),
        Text::Display(d) => call_ensures(display_text, (d,), rendered),
    }
}

/// Renders `v` once: by its debug representation, or by its display
/// representation, as `v` says. The text is the value's own matter, and so is
/// a failure.
pub fn render_text(v: Text<'_>) -> (rendered: Result<String, core::fmt::Error>)
    ensures
        renders_text(v, rendered),
{
    match v {
        Text::Debug(d) => debug_text(d),
        Text::Display(d) => display_text(d),
    }
}

/// Whether `rendered` is what came back from rendering the value of `call`,
/// for a call whose text the call alone does not fix: a float is rendered by
/// the float operations `floats`, a value that only renders by its own debug
/// or display representation, and a structured value by the debug
/// representation that the protocol gives it.
pub closed spec fn renders<F: Floats>(
    floats: &F,
    call: Call<'_>,
    rendered: Result<String, core::fmt::Error>,
) -> bool {
    match call {
        Call::Float(bits) => rendered matches Ok(text) && call_ensures(
            F::debug_text,
            (floats, bits),
            text,
        ),
        Call::Debug(v) => renders_text(v, rendered),
        Call::Sval(v) => call_ensures(structured::debug_text, (v,), rendered),
        _ => false,
    }
}

/// Whether appending a rendering to `before` leaves `after` and returns `r`:
/// a text is appended as it is, and a failed rendering appends nothing and is
/// a formatting failure.
pub open spec fn appends(
    before: Seq<char>,
    rendered: Result<String, core::fmt::Error>,
    after: Seq<char>,
    r: Result<(), VisitError>,
) -> bool {
    match rendered {
        Ok(text) => r is Ok && after == before + text@,
        Err(_) => r == Err::<(), VisitError>(VisitError::Fmt) && after == before,
    }
}

/// Whether `r` is the rendering `rendered` as a whole rendering hands it
/// out: the text as it is, or a formatting failure where rendering failed.
pub open spec fn rendered_as(
    rendered: Result<String, core::fmt::Error>,
    r: Result<String, VisitError>,
) -> bool {
    match rendered {
        Ok(text) => r matches Ok(s) && s@ == text@,
        Err(_) => r == Err::<String, VisitError>(VisitError::Fmt),
    }
}

/// Whether `r` is a whole rendering of the value of `call`: the text that the
/// call fixes, or else what came back from rendering the value once.
pub open spec fn rendering_of<F: Floats>(
    floats: &F,
    call: Call<'_>,
    r: Result<String, VisitError>,
) -> bool {
    match text_of(call) {
        Some(text) => r matches Ok(s) && s@ == text,
        None => exists|rendered: Result<String, core::fmt::Error>| #[trigger]
            renders(floats, call, rendered) && rendered_as(rendered, r),
    }
}

/// The consumer that renders what it receives: it appends the debug text of
/// each value to the text it holds.
pub struct FmtVisitor<'f, F: Floats> {
    pub text: String,
    pub floats: &'f F,
}

impl<'f, F: Floats> FmtVisitor<'f, F> {
    /// A consumer that has rendered nothing yet.
    pub fn new(floats: &'f F) -> (r: Self)
        ensures
            r.text@ == Seq::<char>::empty(),
            r.floats == floats,
    {
        FmtVisitor { text: String::new(), floats }
    }

    /// Appends `text`.
    fn put(&mut self, text: String)
        ensures
            final(self).text@ == old(self).text@ + text@,
            final(self).floats == old(self).floats,
    {
        self.text.push_str(text.as_str());
    }

    /// Appends a rendering, or reports that there is none.
    fn put_rendered(&mut self, rendered: Result<String, core::fmt::Error>) -> (r: Result<
        (),
        VisitError,
    >)
        ensures
            final(self).floats == old(self).floats,
            appends(old(self).text@, rendered, final(self).text@, r),
    {
        match rendered {
            Ok(text) => {
                self.put(text);
                Ok(())
            },
            Err(e) => Err(VisitError::from_fmt(e)),
        }
    }
}

impl<'f, F: Floats> Visitor for FmtVisitor<'f, F> {
    /// A call whose text is fixed appends exactly that text and succeeds. Any
    /// other call has its value rendered once, and appends what came back: the
    /// text as it is, or, where rendering the value failed, nothing, with a
    /// formatting failure. Rendering a float does not fail.
    open spec fn step(pre: Self, call: Call<'_>, post: Self, r: Result<(), VisitError>) -> bool {
        &&& post.floats == pre.floats
        &&& match text_of(call) {
            Some(text) => r is Ok && post.text@ == pre.text@ + text,
            None => exists|rendered: Result<String, core::fmt::Error>| #[trigger]
                renders(pre.floats, call, rendered) && appends(
                    pre.text@,
                    rendered,
                    post.text@,
                    r,
                ),
        }
    }

    fn debug(&mut self, v: Text<'_>) -> (r: Result<(), VisitError>) {
        let rendered = render_text(v);
        assert(renders(self.floats, Call::Debug(v), rendered));
        self.put_rendered(rendered)
    }

    fn u64(&mut self, v: u64) -> (r: Result<(), VisitError>) {
        push_unsigned(&mut self.text, v);
        Ok(())
    }

    fn i64(&mut self, v: i64) -> (r: Result<(), VisitError>) {
        push_signed(&mut self.text, v);
        Ok(())
    }

    fn float(&mut self, bits: u64) -> (r: Result<(), VisitError>) {
        let text = self.floats.debug_text(bits);
        assert(forall|t: String| #[trigger]
            call_ensures(F::debug_text, (self.floats, bits), t) ==> renders(
                self.floats,
                Call::Float(bits),
                Ok(t),
            ));
        self.put_rendered(Ok(text))
    }

    fn bool(&mut self, v: bool) -> (r: Result<(), VisitError>) {
        if v {
            self.text.push_str("true");
        } else {
            self.text.push_str("false");
        }
        Ok(())
    }

    fn char(&mut self, v: char) -> (r: Result<(), VisitError>) {
        self.put(char_text(v));
        Ok(())
    }

    fn str(&mut self, v: &str) -> (r: Result<(), VisitError>) {
        self.put(str_text(v));
        Ok(())
    }

    fn none(&mut self) -> (r: Result<(), VisitError>) {
        self.text.push_str("None");
        Ok(())
    }

    fn sval(&mut self, v: SvalRef<'_>) -> (r: Result<(), VisitError>) {
        let rendered = structured::debug_text(v);
        assert(forall|o: Result<String, core::fmt::Error>| #[trigger]
            call_ensures(structured::debug_text, (v,), o) ==> renders(
                self.floats,
                Call::Sval(v),
                o,
            ));
        self.put_rendered(rendered)
    }
}

impl<'v> Inner<'v> {
    /// The text that the debug-style rendering of this value is bound to give,
    /// where the value alone fixes it: the debug text of a primitive other
    /// than a float.
    pub open spec fn debug_rendering(&self) -> Option<Seq<char>> {
        match self.settled() {
            Some(value) => text_of(value.call()),
            None => None,
        }
    }

    /// The text that the display-style rendering of this value is bound to
    /// give: by design the same as the debug-style one.
    pub open spec fn display_rendering(&self) -> Option<Seq<char>> {
        self.debug_rendering()
    }

    /// Renders the value: it is dispatched once into a text consumer that
    /// starts empty.
    fn render<F: Floats>(&self, floats: &F) -> (r: Result<String, VisitError>)
        ensures
            self.debug_rendering() matches Some(text) ==> r matches Ok(s) && s@ == text,
            self matches Inner::Primitive(_) ==> r is Ok,
            !(self is Fill) ==> (r matches Err(e) ==> e == VisitError::Fmt),
            self.settled() matches Some(value) ==> rendering_of(floats, value.call(), r),
            self is Fill ==> r is Err || exists|value: Settled<'v>| #[trigger]
                rendering_of(floats, value.call(), r),
    {
        let mut visitor = FmtVisitor::new(floats);
        let ghost pre = visitor;
        let visited = self.visit(&mut visitor);
        let ghost post = visitor;
        let r = match visited {
            Ok(()) => Ok(visitor.text),
            Err(e) => Err(e),
        };
        proof {
            if self is Fill && visited is Ok {
                let value = choose|value: Settled<'v>|
                    FmtVisitor::step(pre, value.call(), post, visited);
                assert(rendering_of(floats, value.call(), r));
            }
        }
        r
    }

    /// The debug-style rendering of the value.
    ///
    /// A primitive renders as its own debug text and never fails. A borrowed
    /// value renders as it sees fit, and only a failure of its own formatting
    /// makes the rendering fail.
    pub fn to_debug_text<F: Floats>(&self, floats: &F) -> (r: Result<String, VisitError>)
        ensures
            self.debug_rendering() matches Some(text) ==> r matches Ok(s) && s@ == text,
            self matches Inner::Primitive(_) ==> r is Ok,
            !(self is Fill) ==> (r matches Err(e) ==> e == VisitError::Fmt),
            self.settled() matches Some(value) ==> rendering_of(floats, value.call(), r),
            self is Fill ==> r is Err || exists|value: Settled<'v>| #[trigger]
                rendering_of(floats, value.call(), r),
    {
        self.render(floats)
    }

    /// The display-style rendering of the value, which is its debug-style
    /// rendering.
    pub fn to_display_text<F: Floats>(&self, floats: &F) -> (r: Result<String, VisitError>)
        ensures
            self.display_rendering() matches Some(text) ==> r matches Ok(s) && s@ == text,
            self matches Inner::Primitive(_) ==> r is Ok,
            !(self is Fill) ==> (r matches Err(e) ==> e == VisitError::Fmt),
            self.settled() matches Some(value) ==> rendering_of(floats, value.call(), r),
            self is Fill ==> r is Err || exists|value: Settled<'v>| #[trigger]
                rendering_of(floats, value.call(), r),
    {
        self.render(floats)
    }
}

} // verus!
