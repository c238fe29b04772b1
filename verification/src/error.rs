//! The failure signals shared by all decoders.

use crate::span::Span;
use crate::span::SpanView;
use vstd::prelude::*;

verus! {

/// Why a primitive read or a repetition gave up.
#[derive(Clone, Copy, Debug, PartialEq, Eq, Structural)]
pub enum ErrorKind {
    /// A fixed-width read found fewer bytes than it needs.
    Eof,
    /// A repeated record decoder returned without consuming anything.
    Many0,
}

/// How many more bytes a length-prefixed section asks for.
#[derive(Clone, Copy, Debug, PartialEq, Eq, Structural)]
pub enum Needed {
    /// More bytes are needed, but it is not known how many.
    Unknown,
    /// This many more bytes are needed; never zero.
    Size(usize),
}

/// How a decode attempt ended when it produced no value.
///
/// `Incomplete` says that the buffer ends before a declared length does, so a
/// caller that reassembles a stream may try again with more bytes. `Error`
/// and `Failure` say that the bytes at hand are not a valid encoding.
#[derive(Clone, Debug, PartialEq, Eq)]
pub enum ParseFailure<E> {
    Incomplete(Needed),
    Error(E),
    Failure(E),
}

/// The mathematical content of a located error: the cursor at which decoding
/// stopped, and what went wrong there. The offset of the cursor counts from
/// the start of the whole buffer, whatever section the failing decoder
/// was handed.
pub struct Located<E> {
    pub span: SpanView,
    pub error: E,
}

/// The failure `Error` with `error` at the cursor `span`.
pub open spec fn error_at<E>(span: SpanView, error: E) -> ParseFailure<Located<E>> {
    ParseFailure::Error(Located { span, error })
}

/// A failure of an inner decoder as the enclosing decoder reports it:
/// `Incomplete` stays as it is, and a located error keeps its cursor while
/// its error is wrapped by `tag`.
pub open spec fn rewrap<E, L>(failure: ParseFailure<Located<E>>, tag: spec_fn(E) -> L)
    -> ParseFailure<Located<L>> {
    match failure {
        ParseFailure::Incomplete(needed) => ParseFailure::Incomplete(needed),
        ParseFailure::Error(located) => ParseFailure::Error(
            Located { span: located.span, error: tag(located.error) },
        ),
        ParseFailure::Failure(located) => ParseFailure::Failure(
            Located { span: located.span, error: tag(located.error) },
        ),
    }
}

/// A located failure lies within `outer`: it is `Incomplete`, or the cursor
/// of its error does.
pub open spec fn failure_within<E>(failure: ParseFailure<Located<E>>, outer: SpanView) -> bool {
    match failure {
        ParseFailure::Incomplete(_) => true,
        ParseFailure::Error(located) | ParseFailure::Failure(located) => located.span.within(outer),
    }
}

impl<E> ParseFailure<E> {
    /// Hands the failure to an enclosing decoder: `Incomplete` stays as it
    /// is, and the error of `Error` or `Failure` is converted by `wrap`.
    pub fn map<L, F: FnOnce(E) -> L>(self, wrap: F) -> (mapped: ParseFailure<L>)
        requires
            match self {
                ParseFailure::Incomplete(_) => true,
                ParseFailure::Error(error) | ParseFailure::Failure(error) => call_requires(
                    wrap,
                    (error,),
                ),
            },
        ensures
            match (self, mapped) {
                (ParseFailure::Incomplete(needed), ParseFailure::Incomplete(same)) => needed
                    == same,
                (ParseFailure::Error(inner), ParseFailure::Error(outer)) => call_ensures(
                    wrap,
                    (inner,),
                    outer,
                ),
                (ParseFailure::Failure(inner), ParseFailure::Failure(outer)) => call_ensures(
                    wrap,
                    (inner,),
                    outer,
                ),
                _ => false,
            },
    {
        match self {
            ParseFailure::Incomplete(needed) => ParseFailure::Incomplete(needed),
            ParseFailure::Error(error) => ParseFailure::Error(wrap(error)),
            ParseFailure::Failure(error) => ParseFailure::Failure(wrap(error)),
        }
    }
}

impl<E: View> View for ParseFailure<E> {
    type V = ParseFailure<E::V>;

    open spec fn view(&self) -> ParseFailure<E::V> {
        match *self {
            ParseFailure::Incomplete(needed) => ParseFailure::Incomplete(needed),
            ParseFailure::Error(e) => ParseFailure::Error(e@),
            ParseFailure::Failure(e) => ParseFailure::Failure(e@),
        }
    }
}

/// The views of the values of `values`, in the same order.
pub open spec fn views<T: View>(values: Seq<T>) -> Seq<T::V> {
    values.map_values(|value: T| value@)
}

/// What a decoder returned, with cursors and errors replaced by their views
/// and the decoded value kept as it is.
pub open spec fn parsed<'a, T, E: View>(r: Result<(Span<'a>, T), ParseFailure<E>>) -> Result<
    (SpanView, T),
    ParseFailure<E::V>,
> {
    match r {
        Ok((rest, value)) => Ok((rest@, value)),
        Err(failure) => Err(failure@),
    }
}

/// What a decoder returned, with cursors, errors and the decoded value
/// replaced by their views.
pub open spec fn parsed_view<'a, T: View, E: View>(
    r: Result<(Span<'a>, T), ParseFailure<E>>,
) -> Result<(SpanView, T::V), ParseFailure<E::V>> {
    match r {
        Ok((rest, value)) => Ok((rest@, value@)),
        Err(failure) => Err(failure@),
    }
}

/// What a decoder of a sequence returned, with cursors and errors replaced
/// by their views and each decoded value by its own.
pub open spec fn parsed_views<'a, T: View, E: View>(
    r: Result<(Span<'a>, Vec<T>), ParseFailure<E>>,
) -> Result<(SpanView, Seq<T::V>), ParseFailure<E::V>> {
    match r {
        Ok((rest, values)) => Ok((rest@, views(values@))),
        Err(failure) => Err(failure@),
    }
}

} // verus!
