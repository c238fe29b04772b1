//! The errors of the decoder of the optional parameters of an OPEN message,
//! which encloses the capability decoder.

use crate::error::ErrorKind;
use crate::error::Located;
use crate::span::Span;
use crate::wire::deserializer::capabilities::BGPCapabilityParsingError;
use vstd::prelude::*;

verus! {

/// Why an optional parameter of an OPEN message could not be decoded.
#[derive(Clone, Copy, Debug, PartialEq, Eq)]
pub enum BGPParameterParsingError {
    /// A primitive read failed.
    NomError(ErrorKind),
    /// A capability inside the parameter could not be decoded.
    CapabilityError(BGPCapabilityParsingError),
}

/// A [`BGPParameterParsingError`] and the cursor at which it occurred.
#[derive(Clone, Debug, PartialEq, Eq)]
pub struct LocatedBGPParameterParsingError<'a> {
    span: Span<'a>,
    error: BGPParameterParsingError,
}

impl<'a> View for LocatedBGPParameterParsingError<'a> {
    type V = Located<BGPParameterParsingError>;

    closed spec fn view(&self) -> Located<BGPParameterParsingError> {
        Located { span: self.span@, error: self.error }
    }
}

impl<'a> LocatedBGPParameterParsingError<'a> {
    /// The error `error`, recorded at `span`.
    pub fn new(span: Span<'a>, error: BGPParameterParsingError) -> (located: Self)
        ensures
            located@ == (Located { span: span@, error }),
    {
        Self { span, error }
    }

    /// The cursor at which decoding stopped.
    pub fn span(&self) -> (span: &Span<'a>)
        ensures
            span@ == self@.span,
    {
        &self.span
    }

    /// What went wrong.
    pub fn error(&self) -> (error: &BGPParameterParsingError)
        ensures
            *error == self@.error,
    {
        &self.error
    }

    /// The error of a primitive read that failed at `input`.
    pub fn from_error_kind(input: Span<'a>, kind: ErrorKind) -> (located: Self)
        ensures
            located@ == (Located { span: input@, error: BGPParameterParsingError::NomError(kind) }),
    {
        Self::new(input, BGPParameterParsingError::NomError(kind))
    }

    /// Joins an error that came up at `input` to `other`, which was
    /// recorded before: the first error is the one that is kept.
    pub fn append(_input: Span<'a>, _kind: ErrorKind, other: Self) -> (located: Self)
        ensures
            located == other,
    {
        other
    }

    /// An error that this scope has found for itself at `input`.
    pub fn from_external_error(
        input: Span<'a>,
        _kind: ErrorKind,
        error: BGPParameterParsingError,
    ) -> (located: Self)
        ensures
            located@ == (Located { span: input@, error }),
    {
        Self::new(input, error)
    }
}

} // verus!
