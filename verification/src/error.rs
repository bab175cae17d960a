//! The single error kind of a failed visit.

use vstd::prelude::*;

verus! {

/// A visit that failed.
///
/// Nothing is known of a failure beyond its source: either a text sink or a
/// value's own formatting gave up, or a fixed message was attached.
#[derive(Clone, Copy, Debug)]
pub enum VisitError {
    /// Formatting a value failed.
    Fmt,
    /// A failure described by a fixed message.
    Msg(&'static str),
}

impl VisitError {
    /// The characters of the attached message; empty for a formatting failure.
    pub open spec fn message(&self) -> Seq<char> {
        match *self {
            VisitError::Fmt => Seq::<char>::empty(),
            VisitError::Msg(msg) => msg@,
        }
    }

    /// An error that carries `msg`.
    pub fn msg(msg: &'static str) -> (e: VisitError)
        ensures
            e == VisitError::Msg(msg),
            e.message() == msg@,
    {
        VisitError::Msg(msg)
    }

    /// The attached message, if this error carries one.
    pub fn as_msg(&self) -> (r: Option<&'static str>)
        ensures
            r == match *self {
                VisitError::Fmt => None::<&'static str>,
                VisitError::Msg(msg) => Some(msg),
            },
    {
        match *self {
            VisitError::Fmt => None,
            VisitError::Msg(msg) => Some(msg),
        }
    }
}

} // verus!
