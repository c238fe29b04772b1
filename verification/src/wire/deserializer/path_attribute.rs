//! The errors of the path attribute decoder, which is not part of this
//! crate: the UPDATE decoder is handed one by its caller.

use crate::error::Located;
use crate::span::Span;
use crate::wire::deserializer::update::BGPUpdateMessageParsingError;
use crate::wire::deserializer::update::LocatedBGPUpdateMessageParsingError;
use vstd::prelude::*;

verus! {

/// An error `P` of the path attribute decoder and the cursor at which it
/// occurred.
#[derive(Clone, Debug, PartialEq, Eq)]
pub struct LocatedPathAttributeParsingError<'a, P> {
    span: Span<'a>,
    error: P,
}

impl<'a, P> View for LocatedPathAttributeParsingError<'a, P> {
    type V = Located<P>;

    closed spec fn view(&self) -> Located<P> {
        Located { span: self.span@, error: self.error }
    }
}

impl<'a, P> LocatedPathAttributeParsingError<'a, P> {
    /// The error `error`, recorded at `span`.
    pub fn new(span: Span<'a>, error: P) -> (located: Self)
        ensures
            located@ == (Located { span: span@, error }),
    {
        Self { span, error }
    }

    /// The cursor at which decoding stopped.
    pub fn span(&self) -> (span: &Span<'a>)
        ensures
            span@ == self@.span,
    {
        &self.span
    }

    /// What went wrong.
    pub fn error(&self) -> (error: &P)
        ensures
            *error == self@.error,
    {
        &self.error
    }

    /// The same error as the enclosing decoder reports it: at the same
    /// cursor, and wrapped once.
    pub fn into_located(self) -> (outer: LocatedBGPUpdateMessageParsingError<'a, P>)
        ensures
            outer@ == (Located {
                span: self@.span,
                error: BGPUpdateMessageParsingError::PathAttributeError(self@.error),
            }),
    {
        LocatedBGPUpdateMessageParsingError::new(
            self.span,
            BGPUpdateMessageParsingError::PathAttributeError(self.error),
        )
    }
}

} // verus!
