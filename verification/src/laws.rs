//! What holds of every captured value, stated over the models that the
//! contracts of the projections and renderings use.

use vstd::prelude::*;
use vstd::std_specs::convert::FromSpec;
use crate::coerce::Coerced;
use crate::error::VisitError;
use crate::inner::Inner;
use crate::primitive::Primitive;
use crate::render::{char_debug, decimal, signed_decimal, str_debug};
use crate::token::Recorder;
use crate::visitor::{Call, Visitor};

verus! {

/// A value captured from a primitive says by itself what it is, and the
/// projection of its own kind gives the primitive back unchanged.
pub proof fn lemma_round_trip(p: Primitive<'_>)
    ensures
        Inner::from_spec(p).is_plain(),
        p matches Primitive::Unsigned(v) ==> Inner::from_spec(p).own_u64() == Some(v),
        p matches Primitive::Signed(v) ==> Inner::from_spec(p).own_i64() == Some(v),
        p matches Primitive::Float(bits) ==> Inner::from_spec(p).own_f64_bits() == Some(bits),
        p matches Primitive::Bool(v) ==> Inner::from_spec(p).own_bool() == Some(v),
        p matches Primitive::Char(v) ==> Inner::from_spec(p).own_char() == Some(v),
        p matches Primitive::Str(v) ==> Inner::from_spec(p).own_str() == Some(v),
{
}

/// Capturing a scalar directly is capturing the primitive of its kind, so
/// the projection of that kind gives the scalar back.
pub proof fn lemma_round_trip_scalars(u: u64, i: i64, b: bool, c: char, s: &str)
    ensures
        <Inner<'_> as FromSpec<u64>>::from_spec(u).own_u64() == Some(u),
        <Inner<'_> as FromSpec<i64>>::from_spec(i).own_i64() == Some(i),
        <Inner<'_> as FromSpec<bool>>::from_spec(b).own_bool() == Some(b),
        <Inner<'_> as FromSpec<char>>::from_spec(c).own_char() == Some(c),
        <Inner<'_> as FromSpec<&str>>::from_spec(s).own_str() == Some(s),
{
}

/// A projection of another kind than the primitive's gives an absence: no
/// kind is widened, narrowed or converted into another.
pub proof fn lemma_mismatch_is_absent(p: Primitive<'_>)
    ensures
        !(p is Unsigned) ==> Inner::from_spec(p).own_u64() is None,
        !(p is Signed) ==> Inner::from_spec(p).own_i64() is None,
        !(p is Float) ==> Inner::from_spec(p).own_f64_bits() is None,
        !(p is Bool) ==> Inner::from_spec(p).own_bool() is None,
        !(p is Char) ==> Inner::from_spec(p).own_char() is None,
        !(p is Str) ==> Inner::from_spec(p).own_str() is None,
{
}

/// A value that only renders, through its debug or its display
/// representation, says by itself that it is no scalar and no string: every
/// projection of it is an absence.
pub proof fn lemma_rendered_only_is_absent(value: Inner<'_>)
    requires
        value is Debug || value is Display,
    ensures
        value.is_plain(),
        value.own_u64() is None,
        value.own_i64() is None,
        value.own_f64_bits() is None,
        value.own_bool() is None,
        value.own_char() is None,
        value.own_str() is None,
        forall|r: Coerced<'_>| #[trigger]
            r.captures(Coerced::neutral(), value.settled()->0.call()) ==> r
                == Coerced::<'_>::neutral(),
{
}

/// The debug-style and the display-style rendering of a value are bound to
/// the same text.
pub proof fn lemma_renderings_agree(value: Inner<'_>)
    ensures
        value.display_rendering() == value.debug_rendering(),
{
}

/// Both renderings of a value captured from a primitive are bound to the
/// primitive's own debug text: the decimal digits of an integer, `true` or
/// `false`, the quoted character or string, and `None` for an absence.
pub proof fn lemma_primitive_renders_as_its_debug_text(u: u64, i: i64, b: bool, c: char, s: &str)
    ensures
        Inner::Primitive(Primitive::Unsigned(u)).display_rendering() == Some(decimal(u as nat)),
        Inner::Primitive(Primitive::Signed(i)).display_rendering() == Some(
            signed_decimal(i as int),
        ),
        Inner::Primitive(Primitive::Bool(b)).display_rendering() == Some(
            if b {
                "true"@
            } else {
                "false"@
            },
        ),
        Inner::Primitive(Primitive::Char(c)).display_rendering() == Some(char_debug(c)),
        Inner::Primitive(Primitive::Str(s)).display_rendering() == Some(str_debug(s@)),
        Inner::Primitive(Primitive::Absent).display_rendering() == Some("None"@),
{
}

/// One call leaves exactly one record: whatever a recorder has received, a
/// call that succeeds adds one token to it, a record of that call, and changes
/// nothing before it.
pub proof fn lemma_one_call_one_record(
    pre: Recorder,
    call: Call<'_>,
    post: Recorder,
    r: Result<(), VisitError>,
)
    requires
        Recorder::step(pre, call, post, r),
    ensures
        r is Ok ==> post.calls@.len() == pre.calls@.len() + 1,
        r is Ok ==> post.calls@.last().records(call),
        r is Ok ==> post.calls@.subrange(0, pre.calls@.len() as int) == pre.calls@,
        r is Err ==> post.calls@ == pre.calls@,
        !(call is Debug) ==> r is Ok,
{
    if r is Ok {
        assert(post.calls@.subrange(0, pre.calls@.len() as int) =~= post.calls@.drop_last());
    }
}

} // verus!
