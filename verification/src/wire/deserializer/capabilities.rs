//! Decoding one capability of an OPEN message.
//!
//! On the wire a capability is one byte of code, one byte of length, and as
//! many bytes of value as the length says.

use crate::capabilities::BGPCapability;
use crate::capabilities::BGPCapabilityView;
use crate::capabilities::ENHANCED_ROUTE_REFRESH_CAPABILITY_LENGTH;
use crate::capabilities::ExperimentalCapability;
use crate::capabilities::ExperimentalCapabilityCode;
use crate::capabilities::ExperimentalCapabilityView;
use crate::capabilities::EXTENDED_MESSAGE_CAPABILITY_LENGTH;
use crate::capabilities::FOUR_OCTET_AS_CAPABILITY_LENGTH;
use crate::capabilities::FourOctetASCapability;
use crate::capabilities::ROUTE_REFRESH_CAPABILITY_LENGTH;
use crate::capabilities::UnrecognizedCapability;
use crate::capabilities::UnrecognizedCapabilityView;
use crate::error::error_at;
use crate::error::ErrorKind;
use crate::error::Located;
use crate::error::Needed;
use crate::error::parsed_view;
use crate::error::ParseFailure;
use crate::error::rewrap;
use crate::iana::BGPCapabilityCode;
use crate::iana::UndefinedBGPCapabilityCode;
use crate::readers::be_u32;
use crate::readers::be_u32_value;
use crate::readers::be_u8;
use crate::readers::length_value_u8;
use crate::readers::shortfall;
use crate::span::Span;
use crate::span::SpanView;
use crate::wire::deserializer::open::BGPParameterParsingError;
use crate::wire::deserializer::open::LocatedBGPParameterParsingError;
use vstd::prelude::*;

verus! {

/// Why a capability could not be decoded.
#[derive(Clone, Copy, Debug, PartialEq, Eq)]
pub enum BGPCapabilityParsingError {
    /// A primitive read failed.
    NomError(ErrorKind),
    /// The code is one that the registry does not assign. The decoder never
    /// returns this error: it decodes such a capability as unrecognized.
    UndefinedCapabilityCode(UndefinedBGPCapabilityCode),
    /// The length of a route refresh capability is not zero but this.
    InvalidRouteRefreshLength(u8),
    /// The length of an enhanced route refresh capability is not zero but
    /// this.
    InvalidEnhancedRouteRefreshLength(u8),
    /// The length of an extended message capability is not zero but this.
    InvalidExtendedMessageLength(u8),
    /// The four-octet AS number capability could not be decoded.
    FourOctetASCapabilityError(FourOctetASCapabilityParsingError),
}

/// A [`BGPCapabilityParsingError`] and the cursor at which it occurred.
#[derive(Clone, Debug, PartialEq, Eq)]
pub struct LocatedBGPCapabilityParsingError<'a> {
    span: Span<'a>,
    error: BGPCapabilityParsingError,
}

impl<'a> View for LocatedBGPCapabilityParsingError<'a> {
    type V = Located<BGPCapabilityParsingError>;

    closed spec fn view(&self) -> Located<BGPCapabilityParsingError> {
        Located { span: self.span@, error: self.error }
    }
}

impl<'a> LocatedBGPCapabilityParsingError<'a> {
    /// The error `error`, recorded at `span`.
    pub fn new(span: Span<'a>, error: BGPCapabilityParsingError) -> (located: Self)
        ensures
            located@ == (Located { span: span@, error }),
    {
        Self { span, error }
    }

    /// The cursor at which decoding stopped.
    pub fn span(&self) -> (span: &Span<'a>)
        ensures
            span@ == self@.span,
    {
        &self.span
    }

    /// What went wrong.
    pub fn error(&self) -> (error: &BGPCapabilityParsingError)
        ensures
            *error == self@.error,
    {
        &self.error
    }

    /// The error of a primitive read that failed at `input`.
    pub fn from_error_kind(input: Span<'a>, kind: ErrorKind) -> (located: Self)
        ensures
            located@ == (Located {
                span: input@,
                error: BGPCapabilityParsingError::NomError(kind),
            }),
    {
        Self::new(input, BGPCapabilityParsingError::NomError(kind))
    }

    /// Joins an error that came up at `input` to `other`, which was
    /// recorded before: the first error is the one that is kept.
    pub fn append(_input: Span<'a>, _kind: ErrorKind, other: Self) -> (located: Self)
        ensures
            located == other,
    {
        other
    }

    /// An error that this scope has found for itself at `input`.
    pub fn from_external_error(
        input: Span<'a>,
        _kind: ErrorKind,
        error: BGPCapabilityParsingError,
    ) -> (located: Self)
        ensures
            located@ == (Located { span: input@, error }),
    {
        Self::new(input, error)
    }

    /// The error of a code that the registry does not assign, found at
    /// `input`.
    pub fn from_undefined_capability_code(
        input: Span<'a>,
        _kind: ErrorKind,
        error: UndefinedBGPCapabilityCode,
    ) -> (located: Self)
        ensures
            located@ == (Located {
                span: input@,
                error: BGPCapabilityParsingError::UndefinedCapabilityCode(error),
            }),
    {
        Self::new(input, BGPCapabilityParsingError::UndefinedCapabilityCode(error))
    }

    /// The same error as the enclosing decoder reports it: at the same
    /// cursor, and wrapped once.
    pub fn into_located(self) -> (outer: LocatedBGPParameterParsingError<'a>)
        ensures
            outer@ == (Located {
                span: self@.span,
                error: BGPParameterParsingError::CapabilityError(self@.error),
            }),
    {
        LocatedBGPParameterParsingError::new(
            self.span,
            BGPParameterParsingError::CapabilityError(self.error),
        )
    }
}

/// Why a four-octet AS number capability could not be decoded.
#[derive(Clone, Copy, Debug, PartialEq, Eq)]
pub enum FourOctetASCapabilityParsingError {
    /// A primitive read failed.
    NomError(ErrorKind),
    /// The length of the capability is not four but this.
    InvalidLength(u8),
}

/// A [`FourOctetASCapabilityParsingError`] and the cursor at which it occurred.
#[derive(Clone, Debug, PartialEq, Eq)]
pub struct LocatedFourOctetASCapabilityParsingError<'a> {
    span: Span<'a>,
    error: FourOctetASCapabilityParsingError,
}

impl<'a> View for LocatedFourOctetASCapabilityParsingError<'a> {
    type V = Located<FourOctetASCapabilityParsingError>;

    closed spec fn view(&self) -> Located<FourOctetASCapabilityParsingError> {
        Located { span: self.span@, error: self.error }
    }
}

impl<'a> LocatedFourOctetASCapabilityParsingError<'a> {
    /// The error `error`, recorded at `span`.
    pub fn new(span: Span<'a>, error: FourOctetASCapabilityParsingError) -> (located: Self)
        ensures
            located@ == (Located { span: span@, error }),
    {
        Self { span, error }
    }

    /// The cursor at which decoding stopped.
    pub fn span(&self) -> (span: &Span<'a>)
        ensures
            span@ == self@.span,
    {
        &self.span
    }

    /// What went wrong.
    pub fn error(&self) -> (error: &FourOctetASCapabilityParsingError)
        ensures
            *error == self@.error,
    {
        &self.error
    }

    /// The error of a primitive read that failed at `input`.
    pub fn from_error_kind(input: Span<'a>, kind: ErrorKind) -> (located: Self)
        ensures
            located@ == (Located {
                span: input@,
                error: FourOctetASCapabilityParsingError::NomError(kind),
            }),
    {
        Self::new(input, FourOctetASCapabilityParsingError::NomError(kind))
    }

    /// Joins an error that came up at `input` to `other`, which was
    /// recorded before: the first error is the one that is kept.
    pub fn append(_input: Span<'a>, _kind: ErrorKind, other: Self) -> (located: Self)
        ensures
            located == other,
    {
        other
    }

    /// An error that this scope has found for itself at `input`.
    pub fn from_external_error(
        input: Span<'a>,
        _kind: ErrorKind,
        error: FourOctetASCapabilityParsingError,
    ) -> (located: Self)
        ensures
            located@ == (Located { span: input@, error }),
    {
        Self::new(input, error)
    }

    /// The same error as the enclosing decoder reports it: at the same
    /// cursor, and wrapped once.
    pub fn into_located(self) -> (outer: LocatedBGPCapabilityParsingError<'a>)
        ensures
            outer@ == (Located {
                span: self@.span,
                error: BGPCapabilityParsingError::FourOctetASCapabilityError(self@.error),
            }),
    {
        LocatedBGPCapabilityParsingError::new(
            self.span,
            BGPCapabilityParsingError::FourOctetASCapabilityError(self.error),
        )
    }
}

/// The outcome of decoding a capability.
pub type CapabilityOutcome = Result<
    (SpanView, BGPCapabilityView),
    ParseFailure<Located<BGPCapabilityParsingError>>,
>;

/// What follows the code of a capability whose value this crate keeps as it
/// stands: one byte of length, then that many bytes of value.
///
/// - No length byte: `Eof` at `body`.
/// - Fewer bytes behind the length than it declares: `Incomplete` with the
///   number of bytes that lack.
pub open spec fn capability_value_spec(body: SpanView) -> Result<
    (SpanView, Seq<u8>),
    ParseFailure<Located<BGPCapabilityParsingError>>,
> {
    if body.len() < 1 {
        Err(error_at(body, BGPCapabilityParsingError::NomError(ErrorKind::Eof)))
    } else {
        let length = body.bytes[0] as nat;
        match shortfall(length, (body.len() - 1) as nat) {
            Some(needed) => Err(ParseFailure::Incomplete(needed)),
            None => Ok((body.skip(1 + length), body.bytes.subrange(1, 1 + length as int))),
        }
    }
}

/// What follows the code of a capability without a value: one byte of
/// length, which is zero.
///
/// - No length byte: `Eof` at `body`.
/// - Another length: the error that `invalid` makes of it, at `body`.
pub open spec fn zero_length_capability_spec(
    body: SpanView,
    capability: BGPCapabilityView,
    invalid: spec_fn(u8) -> BGPCapabilityParsingError,
) -> CapabilityOutcome {
    if body.len() < 1 {
        Err(error_at(body, BGPCapabilityParsingError::NomError(ErrorKind::Eof)))
    } else if body.bytes[0] != 0 {
        Err(error_at(body, invalid(body.bytes[0])))
    } else {
        Ok((body.skip(1), capability))
    }
}

/// What follows the code of a four-octet AS number capability: one byte of
/// length, which is four, and the AS number, most significant byte first.
///
/// - No length byte: `Eof` at `body`.
/// - Another length: `InvalidLength` with that length, at `body`.
/// - Fewer than four bytes behind the length: `Eof` behind the length.
pub open spec fn four_octet_as_capability_spec(body: SpanView) -> Result<
    (SpanView, u32),
    ParseFailure<Located<FourOctetASCapabilityParsingError>>,
> {
    if body.len() < 1 {
        Err(error_at(body, FourOctetASCapabilityParsingError::NomError(ErrorKind::Eof)))
    } else if body.bytes[0] != 4 {
        Err(error_at(body, FourOctetASCapabilityParsingError::InvalidLength(body.bytes[0])))
    } else if body.len() < 5 {
        Err(error_at(body.skip(1), FourOctetASCapabilityParsingError::NomError(ErrorKind::Eof)))
    } else {
        Ok((body.skip(5), be_u32_value(body.bytes.skip(1))))
    }
}

/// The capability at the start of `buf`.
///
/// - No code byte: `Eof` at `buf`.
/// - Route refresh, enhanced route refresh and extended message: see
///   `zero_length_capability_spec`, each with the error of its own kind.
/// - Four-octet AS number: see `four_octet_as_capability_spec`; its errors
///   are wrapped in `FourOctetASCapabilityError` and keep their cursor.
/// - A code from the experimental range: `Experimental` with that code and
///   the value as it stands.
/// - Any other code, assigned or not: `Unrecognized` with the code byte and
///   the value as it stands.
pub open spec fn capability_spec(buf: SpanView) -> CapabilityOutcome {
    if buf.len() < 1 {
        Err(error_at(buf, BGPCapabilityParsingError::NomError(ErrorKind::Eof)))
    } else {
        let code = buf.bytes[0];
        let body = buf.skip(1);
        match BGPCapabilityCode::of(code) {
            Some(BGPCapabilityCode::RouteRefreshCapability) => zero_length_capability_spec(
                body,
                BGPCapabilityView::RouteRefresh,
                |length: u8| BGPCapabilityParsingError::InvalidRouteRefreshLength(length),
            ),
            Some(BGPCapabilityCode::EnhancedRouteRefresh) => zero_length_capability_spec(
                body,
                BGPCapabilityView::EnhancedRouteRefresh,
                |length: u8| BGPCapabilityParsingError::InvalidEnhancedRouteRefreshLength(length),
            ),
            Some(BGPCapabilityCode::BGPExtendedMessage) => zero_length_capability_spec(
                body,
                BGPCapabilityView::ExtendedMessage,
                |length: u8| BGPCapabilityParsingError::InvalidExtendedMessageLength(length),
            ),
            Some(BGPCapabilityCode::FourOctetAS) => match four_octet_as_capability_spec(body) {
                Ok((rest, asn4)) => Ok((rest, BGPCapabilityView::FourOctetAS(asn4))),
                Err(failure) => Err(
                    rewrap(
                        failure,
                        |error: FourOctetASCapabilityParsingError|
                            BGPCapabilityParsingError::FourOctetASCapabilityError(error),
                    ),
                ),
            },
            _ => match capability_value_spec(body) {
                Ok((rest, value)) => Ok(
                    (
                        rest,
                        match ExperimentalCapabilityCode::of(code) {
                            Some(experimental) => BGPCapabilityView::Experimental(
                                ExperimentalCapabilityView { code: experimental, value },
                            ),
                            None => BGPCapabilityView::Unrecognized(
                                UnrecognizedCapabilityView { code, value },
                            ),
                        },
                    ),
                ),
                Err(failure) => Err(failure),
            },
        }
    }
}

/// Reads the value of a capability that is kept as it stands.
fn parse_capability_value<'a>(body: Span<'a>) -> (r: Result<
    (Span<'a>, Vec<u8>),
    ParseFailure<LocatedBGPCapabilityParsingError<'a>>,
>)
    ensures
        parsed_view(r) == capability_value_spec(body@),
{
    match length_value_u8(body) {
        Ok(read) => Ok(read),
        Err(ParseFailure::Incomplete(needed)) => Err(ParseFailure::Incomplete(needed)),
        Err(ParseFailure::Error(kind)) => Err(
            ParseFailure::Error(LocatedBGPCapabilityParsingError::from_error_kind(body, kind)),
        ),
        Err(ParseFailure::Failure(kind)) => Err(
            ParseFailure::Failure(LocatedBGPCapabilityParsingError::from_error_kind(body, kind)),
        ),
    }
}

fn parse_experimental_capability<'a>(code: ExperimentalCapabilityCode, body: Span<'a>) -> (r:
    Result<(Span<'a>, BGPCapability), ParseFailure<LocatedBGPCapabilityParsingError<'a>>>)
    ensures
        parsed_view(r) == (match capability_value_spec(body@) {
            Ok((rest, value)) => Ok(
                (rest, BGPCapabilityView::Experimental(ExperimentalCapabilityView { code, value })),
            ),
            Err(failure) => Err(failure),
        }),
{
    match parse_capability_value(body) {
        Ok((rest, value)) => Ok(
            (rest, BGPCapability::Experimental(ExperimentalCapability::new(code, value))),
        ),
        Err(failure) => Err(failure),
    }
}

fn parse_unrecognized_capability<'a>(code: u8, body: Span<'a>) -> (r: Result<
    (Span<'a>, BGPCapability),
    ParseFailure<LocatedBGPCapabilityParsingError<'a>>,
>)
    ensures
        parsed_view(r) == (match capability_value_spec(body@) {
            Ok((rest, value)) => Ok(
                (rest, BGPCapabilityView::Unrecognized(UnrecognizedCapabilityView { code, value })),
            ),
            Err(failure) => Err(failure),
        }),
{
    match parse_capability_value(body) {
        Ok((rest, value)) => Ok(
            (rest, BGPCapability::Unrecognized(UnrecognizedCapability::new(code, value))),
        ),
        Err(failure) => Err(failure),
    }
}

/// Why the length byte of a capability of fixed length was not accepted.
enum LengthCheckFailure {
    /// The byte could not be read.
    Read(ErrorKind),
    /// The byte is not the expected length but this.
    Unexpected(u8),
}

/// Reads the length byte of a capability and holds it against the one
/// length that the capability may have.
fn check_capability_length<'a>(body: Span<'a>, expected: u8) -> (r: Result<
    (Span<'a>, u8),
    LengthCheckFailure,
>)
    ensures
        match r {
            Ok((rest, length)) => body@.len() >= 1 && body@.bytes[0] == expected && length
                == expected && rest@ == body@.skip(1),
            Err(LengthCheckFailure::Read(kind)) => body@.len() < 1 && kind == ErrorKind::Eof,
            Err(LengthCheckFailure::Unexpected(length)) => body@.len() >= 1 && length
                == body@.bytes[0] && length != expected,
        },
{
    match be_u8(body) {
        Err(kind) => Err(LengthCheckFailure::Read(kind)),
        Ok((rest, length)) => if length != expected {
            Err(LengthCheckFailure::Unexpected(length))
        } else {
            Ok((rest, length))
        },
    }
}

fn parse_route_refresh_capability<'a>(body: Span<'a>) -> (r: Result<
    (Span<'a>, BGPCapability),
    ParseFailure<LocatedBGPCapabilityParsingError<'a>>,
>)
    ensures
        parsed_view(r) == zero_length_capability_spec(
            body@,
            BGPCapabilityView::RouteRefresh,
            |length: u8| BGPCapabilityParsingError::InvalidRouteRefreshLength(length),
        ),
{
    match check_capability_length(body, ROUTE_REFRESH_CAPABILITY_LENGTH) {
        Ok((rest, _)) => Ok((rest, BGPCapability::RouteRefresh)),
        Err(LengthCheckFailure::Read(kind)) => Err(
            ParseFailure::Error(LocatedBGPCapabilityParsingError::from_error_kind(body, kind)),
        ),
        Err(LengthCheckFailure::Unexpected(length)) => Err(
            ParseFailure::Error(
                LocatedBGPCapabilityParsingError::new(
                    body,
                    BGPCapabilityParsingError::InvalidRouteRefreshLength(length),
                ),
            ),
        ),
    }
}

fn parse_enhanced_route_refresh_capability<'a>(body: Span<'a>) -> (r: Result<
    (Span<'a>, BGPCapability),
    ParseFailure<LocatedBGPCapabilityParsingError<'a>>,
>)
    ensures
        parsed_view(r) == zero_length_capability_spec(
            body@,
            BGPCapabilityView::EnhancedRouteRefresh,
            |length: u8| BGPCapabilityParsingError::InvalidEnhancedRouteRefreshLength(length),
        ),
{
    match check_capability_length(body, ENHANCED_ROUTE_REFRESH_CAPABILITY_LENGTH) {
        Ok((rest, _)) => Ok((rest, BGPCapability::EnhancedRouteRefresh)),
        Err(LengthCheckFailure::Read(kind)) => Err(
            ParseFailure::Error(LocatedBGPCapabilityParsingError::from_error_kind(body, kind)),
        ),
        Err(LengthCheckFailure::Unexpected(length)) => Err(
            ParseFailure::Error(
                LocatedBGPCapabilityParsingError::new(
                    body,
                    BGPCapabilityParsingError::InvalidEnhancedRouteRefreshLength(length),
                ),
            ),
        ),
    }
}

fn parse_extended_message_capability<'a>(body: Span<'a>) -> (r: Result<
    (Span<'a>, BGPCapability),
    ParseFailure<LocatedBGPCapabilityParsingError<'a>>,
>)
    ensures
        parsed_view(r) == zero_length_capability_spec(
            body@,
            BGPCapabilityView::ExtendedMessage,
            |length: u8| BGPCapabilityParsingError::InvalidExtendedMessageLength(length),
        ),
{
    match check_capability_length(body, EXTENDED_MESSAGE_CAPABILITY_LENGTH) {
        Ok((rest, _)) => Ok((rest, BGPCapability::ExtendedMessage)),
        Err(LengthCheckFailure::Read(kind)) => Err(
            ParseFailure::Error(LocatedBGPCapabilityParsingError::from_error_kind(body, kind)),
        ),
        Err(LengthCheckFailure::Unexpected(length)) => Err(
            ParseFailure::Error(
                LocatedBGPCapabilityParsingError::new(
                    body,
                    BGPCapabilityParsingError::InvalidExtendedMessageLength(length),
                ),
            ),
        ),
    }
}

impl FourOctetASCapability {
    /// Decodes what follows the code of a four-octet AS number capability.
    pub fn from_wire<'a>(body: Span<'a>) -> (r: Result<
        (Span<'a>, FourOctetASCapability),
        ParseFailure<LocatedFourOctetASCapabilityParsingError<'a>>,
    >)
        ensures
            parsed_view(r) == four_octet_as_capability_spec(body@),
    {
        let rest = match check_capability_length(body, FOUR_OCTET_AS_CAPABILITY_LENGTH) {
            Ok((rest, _)) => rest,
            Err(LengthCheckFailure::Read(kind)) => {
                return Err(
                    ParseFailure::Error(
                        LocatedFourOctetASCapabilityParsingError::from_error_kind(body, kind),
                    ),
                );
            },
            Err(LengthCheckFailure::Unexpected(length)) => {
                return Err(
                    ParseFailure::Error(
                        LocatedFourOctetASCapabilityParsingError::new(
                            body,
                            FourOctetASCapabilityParsingError::InvalidLength(length),
                        ),
                    ),
                );
            },
        };
        match be_u32(rest) {
            Ok((rest, asn4)) => {
                proof {
                    body@.lemma_skip_skip(1, 4);
                }
                Ok((rest, FourOctetASCapability::new(asn4)))
            },
            Err(kind) => Err(
                ParseFailure::Error(
                    LocatedFourOctetASCapabilityParsingError::from_error_kind(rest, kind),
                ),
            ),
        }
    }
}

impl BGPCapability {
    /// Decodes the capability at the start of `buf` and returns it with the
    /// cursor behind it.
    ///
    /// A code that the registry does not assign is no error: the capability
    /// is returned as `Unrecognized`.
    pub fn from_wire<'a>(buf: Span<'a>) -> (r: Result<
        (Span<'a>, BGPCapability),
        ParseFailure<LocatedBGPCapabilityParsingError<'a>>,
    >)
        ensures
            parsed_view(r) == capability_spec(buf@),
    {
        let (body, code) = match be_u8(buf) {
            Ok(read) => read,
            Err(kind) => {
                return Err(
                    ParseFailure::Error(
                        LocatedBGPCapabilityParsingError::from_error_kind(buf, kind),
                    ),
                );
            },
        };
        match BGPCapabilityCode::try_from_u8(code) {
            Err(undefined) => parse_unrecognized_capability(undefined.0, body),
            Ok(known) => match known {
                BGPCapabilityCode::RouteRefreshCapability => parse_route_refresh_capability(body),
                BGPCapabilityCode::EnhancedRouteRefresh => parse_enhanced_route_refresh_capability(
                    body,
                ),
                BGPCapabilityCode::BGPExtendedMessage => parse_extended_message_capability(body),
                BGPCapabilityCode::FourOctetAS => match FourOctetASCapability::from_wire(body) {
                    Ok((rest, capability)) => Ok((rest, BGPCapability::FourOctetAS(capability))),
                    Err(failure) => Err(
                        failure.map(LocatedFourOctetASCapabilityParsingError::into_located),
                    ),
                },
                BGPCapabilityCode::Experimental239 => parse_experimental_capability(
                    ExperimentalCapabilityCode::Experimental239,
                    body,
                ),
                BGPCapabilityCode::Experimental240 => parse_experimental_capability(
                    ExperimentalCapabilityCode::Experimental240,
                    body,
                ),
                BGPCapabilityCode::Experimental241 => parse_experimental_capability(
                    ExperimentalCapabilityCode::Experimental241,
                    body,
                ),
                BGPCapabilityCode::Experimental242 => parse_experimental_capability(
                    ExperimentalCapabilityCode::Experimental242,
                    body,
                ),
                BGPCapabilityCode::Experimental243 => parse_experimental_capability(
                    ExperimentalCapabilityCode::Experimental243,
                    body,
                ),
                BGPCapabilityCode::Experimental244 => parse_experimental_capability(
                    ExperimentalCapabilityCode::Experimental244,
                    body,
                ),
                BGPCapabilityCode::Experimental245 => parse_experimental_capability(
                    ExperimentalCapabilityCode::Experimental245,
                    body,
                ),
                BGPCapabilityCode::Experimental246 => parse_experimental_capability(
                    ExperimentalCapabilityCode::Experimental246,
                    body,
                ),
                BGPCapabilityCode::Experimental247 => parse_experimental_capability(
                    ExperimentalCapabilityCode::Experimental247,
                    body,
                ),
                BGPCapabilityCode::Experimental248 => parse_experimental_capability(
                    ExperimentalCapabilityCode::Experimental248,
                    body,
                ),
                BGPCapabilityCode::Experimental249 => parse_experimental_capability(
                    ExperimentalCapabilityCode::Experimental249,
                    body,
                ),
                BGPCapabilityCode::Experimental250 => parse_experimental_capability(
                    ExperimentalCapabilityCode::Experimental250,
                    body,
                ),
                BGPCapabilityCode::Experimental251 => parse_experimental_capability(
                    ExperimentalCapabilityCode::Experimental251,
                    body,
                ),
                BGPCapabilityCode::Experimental252 => parse_experimental_capability(
                    ExperimentalCapabilityCode::Experimental252,
                    body,
                ),
                BGPCapabilityCode::Experimental253 => parse_experimental_capability(
                    ExperimentalCapabilityCode::Experimental253,
                    body,
                ),
                BGPCapabilityCode::Experimental254 => parse_experimental_capability(
                    ExperimentalCapabilityCode::Experimental254,
                    body,
                ),
                BGPCapabilityCode::MultiProtocolExtensions
                | BGPCapabilityCode::OutboundRouteFilteringCapability
                | BGPCapabilityCode::ExtendedNextHopEncoding
                | BGPCapabilityCode::BGPSecCapability
                | BGPCapabilityCode::MultipleLabelsCapability
                | BGPCapabilityCode::BGPRole
                | BGPCapabilityCode::GracefulRestartCapability
                | BGPCapabilityCode::SupportForDynamicCapability
                | BGPCapabilityCode::MultiSessionBGPCapability
                | BGPCapabilityCode::ADDPathCapability
                | BGPCapabilityCode::LongLivedGracefulRestartLLGRCapability
                | BGPCapabilityCode::RoutingPolicyDistribution
                | BGPCapabilityCode::FQDN => parse_unrecognized_capability(known.into_u8(), body),
            },
        }
    }
}

/// A capability that decodes fills its frame: one byte of code, one byte of
/// length, and as many bytes of value as the length says.
pub proof fn lemma_capability_consumes_its_frame(buf: SpanView)
    ensures
        capability_spec(buf) matches Ok((rest, _)) ==> buf.len() >= 2 + buf.bytes[1] && rest
            == buf.skip((2 + buf.bytes[1]) as nat),
{
    if buf.len() >= 2 && buf.len() >= 2 + buf.bytes[1] {
        buf.lemma_skip_skip(1, (1 + buf.bytes[1]) as nat);
    }
}

/// A capability without a value decodes exactly when its length byte is
/// zero, and a capability with a four-octet AS number exactly when its
/// length byte is four and four bytes follow. Any other length byte fails
/// with the error of that very capability, which carries the byte and is
/// recorded at the byte.
pub proof fn lemma_fixed_length_capabilities(buf: SpanView)
    requires
        buf.len() >= 2,
    ensures
        BGPCapabilityCode::of(buf.bytes[0]) == Some(BGPCapabilityCode::RouteRefreshCapability)
            ==> capability_spec(buf) == (if buf.bytes[1] == 0 {
            Ok((buf.skip(2), BGPCapabilityView::RouteRefresh))
        } else {
            Err(
                error_at(
                    buf.skip(1),
                    BGPCapabilityParsingError::InvalidRouteRefreshLength(buf.bytes[1]),
                ),
            )
        }),
        BGPCapabilityCode::of(buf.bytes[0]) == Some(BGPCapabilityCode::EnhancedRouteRefresh)
            ==> capability_spec(buf) == (if buf.bytes[1] == 0 {
            Ok((buf.skip(2), BGPCapabilityView::EnhancedRouteRefresh))
        } else {
            Err(
                error_at(
                    buf.skip(1),
                    BGPCapabilityParsingError::InvalidEnhancedRouteRefreshLength(buf.bytes[1]),
                ),
            )
        }),
        BGPCapabilityCode::of(buf.bytes[0]) == Some(BGPCapabilityCode::BGPExtendedMessage)
            ==> capability_spec(buf) == (if buf.bytes[1] == 0 {
            Ok((buf.skip(2), BGPCapabilityView::ExtendedMessage))
        } else {
            Err(
                error_at(
                    buf.skip(1),
                    BGPCapabilityParsingError::InvalidExtendedMessageLength(buf.bytes[1]),
                ),
            )
        }),
        BGPCapabilityCode::of(buf.bytes[0]) == Some(BGPCapabilityCode::FourOctetAS)
            ==> capability_spec(buf) == (if buf.bytes[1] != 4 {
            Err(
                error_at(
                    buf.skip(1),
                    BGPCapabilityParsingError::FourOctetASCapabilityError(
                        FourOctetASCapabilityParsingError::InvalidLength(buf.bytes[1]),
                    ),
                ),
            )
        } else if buf.len() < 6 {
            Err(
                error_at(
                    buf.skip(2),
                    BGPCapabilityParsingError::FourOctetASCapabilityError(
                        FourOctetASCapabilityParsingError::NomError(ErrorKind::Eof),
                    ),
                ),
            )
        } else {
            Ok((buf.skip(6), BGPCapabilityView::FourOctetAS(be_u32_value(buf.bytes.skip(2)))))
        }),
{
    buf.lemma_skip_skip(1, 1);
    if buf.len() >= 6 {
        buf.lemma_skip_skip(1, 5);
    }
}

/// A capability whose value is kept as it stands decodes whenever its frame
/// is complete: with a code from the experimental range (239 to 254) as
/// `Experimental` with the place of the code in that range, and with any
/// other code, whether the registry assigns it or not, as `Unrecognized`
/// with the code byte itself.
pub proof fn lemma_opaque_capabilities(buf: SpanView)
    requires
        buf.len() >= 2 + buf.bytes[1],
        BGPCapabilityCode::of(buf.bytes[0]) != Some(BGPCapabilityCode::RouteRefreshCapability),
        BGPCapabilityCode::of(buf.bytes[0]) != Some(BGPCapabilityCode::EnhancedRouteRefresh),
        BGPCapabilityCode::of(buf.bytes[0]) != Some(BGPCapabilityCode::BGPExtendedMessage),
        BGPCapabilityCode::of(buf.bytes[0]) != Some(BGPCapabilityCode::FourOctetAS),
    ensures
        capability_spec(buf) matches Ok((rest, capability)) && rest == buf.skip(
            (2 + buf.bytes[1]) as nat,
        ) && (match capability {
            BGPCapabilityView::Experimental(experimental) => 239 <= buf.bytes[0] <= 254
                && experimental.code.index() == buf.bytes[0] - 239 && experimental.value
                == buf.bytes.subrange(2, 2 + buf.bytes[1]),
            BGPCapabilityView::Unrecognized(unrecognized) => !(239 <= buf.bytes[0] <= 254)
                && unrecognized.code == buf.bytes[0] && unrecognized.value == buf.bytes.subrange(
                2,
                2 + buf.bytes[1],
            ),
            _ => false,
        }),
{
    buf.lemma_skip_skip(1, (1 + buf.bytes[1]) as nat);
}

/// A code that the registry does not assign is never an error: whenever the
/// frame is complete, the capability is `Unrecognized` with that code and
/// the value as it stands. What can fail is the frame: a value that the
/// buffer cuts short is `Incomplete`, and a missing length byte is `Eof`.
pub proof fn lemma_undefined_code_is_unrecognized(buf: SpanView)
    requires
        buf.len() >= 1,
        BGPCapabilityCode::of(buf.bytes[0]) is None,
    ensures
        capability_spec(buf) == (if buf.len() < 2 {
            Err(error_at(buf.skip(1), BGPCapabilityParsingError::NomError(ErrorKind::Eof)))
        } else if buf.len() < 2 + buf.bytes[1] {
            Err(ParseFailure::Incomplete(Needed::Size((2 + buf.bytes[1] - buf.len()) as usize)))
        } else {
            Ok(
                (
                    buf.skip((2 + buf.bytes[1]) as nat),
                    BGPCapabilityView::Unrecognized(
                        UnrecognizedCapabilityView {
                            code: buf.bytes[0],
                            value: buf.bytes.subrange(2, 2 + buf.bytes[1]),
                        },
                    ),
                ),
            )
        }),
{
    if buf.len() >= 2 && buf.len() >= 2 + buf.bytes[1] {
        lemma_opaque_capabilities(buf);
    }
}

/// The failures of the capability decoder: a read that came to the end of
/// the buffer, a frame that the buffer cuts short, or a length byte that a
/// capability of fixed length does not allow. Never `Failure`, and never an
/// error about the code.
pub proof fn lemma_capability_failures(buf: SpanView)
    ensures
        match capability_spec(buf) {
            Ok(_) => true,
            Err(ParseFailure::Incomplete(needed)) => buf.len() >= 2 && needed == Needed::Size(
                (2 + buf.bytes[1] - buf.len()) as usize,
            ) && 2 + buf.bytes[1] > buf.len(),
            Err(ParseFailure::Error(located)) => match located.error {
                BGPCapabilityParsingError::NomError(kind) => kind == ErrorKind::Eof && buf.len() < 2
                    && located.span == buf.skip(buf.len()),
                BGPCapabilityParsingError::InvalidRouteRefreshLength(length)
                | BGPCapabilityParsingError::InvalidEnhancedRouteRefreshLength(length)
                | BGPCapabilityParsingError::InvalidExtendedMessageLength(length) => buf.len() >= 2
                    && length == buf.bytes[1] && length != 0 && located.span == buf.skip(1),
                BGPCapabilityParsingError::FourOctetASCapabilityError(
                    FourOctetASCapabilityParsingError::InvalidLength(length),
                ) => buf.len() >= 2 && length == buf.bytes[1] && length != 4 && located.span
                    == buf.skip(1),
                BGPCapabilityParsingError::FourOctetASCapabilityError(
                    FourOctetASCapabilityParsingError::NomError(kind),
                ) => kind == ErrorKind::Eof && 1 <= buf.len() < 6 && located.span == buf.skip(
                    if buf.len() == 1 {
                        1
                    } else {
                        2
                    },
                ),
                BGPCapabilityParsingError::UndefinedCapabilityCode(_) => false,
            },
            Err(ParseFailure::Failure(_)) => false,
        },
{
    if buf.len() >= 2 {
        buf.lemma_skip_skip(1, 1);
    } else if buf.len() == 0 {
        assert(buf.bytes.skip(0) =~= buf.bytes);
    }
}

} // verus!
