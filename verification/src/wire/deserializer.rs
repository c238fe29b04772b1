//! Decoders from wire bytes to BGP values, and the IPv4 prefix decoder that
//! withdrawn routes and reachability information share.

pub mod capabilities;
pub mod open;
pub mod path_attribute;
pub mod update;

use crate::error::ErrorKind;
use crate::error::failure_within;
use crate::error::Located;
use crate::error::parsed;
use crate::error::ParseFailure;
use crate::readers::be_u8;
use crate::readers::take;
use crate::span::Span;
use crate::span::SpanView;
use crate::wire::deserializer::update::BGPUpdateMessageParsingError;
use crate::wire::deserializer::update::LocatedNetworkLayerReachabilityInformationParsingError;
use crate::wire::deserializer::update::LocatedWithdrawRouteParsingError;
use crate::wire::deserializer::update::NetworkLayerReachabilityInformationParsingError;
use crate::wire::deserializer::update::WithdrawRouteParsingError;
use ipnet::Ipv4Net;
use ipnet::PrefixLenError;
use vstd::prelude::*;

verus! {

/// `ipnet::PrefixLenError`, the error of a prefix length that is too long
/// for its address family.
#[verifier::external_type_specification]
#[verifier::external_body]
pub struct ExPrefixLenError(PrefixLenError);

/// The network that `ipnet::Ipv4Net::new` makes of the address `a.b.c.d` and
/// a prefix length of at most 32 bits.
pub uninterp spec fn ipv4_net(a: u8, b: u8, c: u8, d: u8, prefix_len: u8) -> Ipv4Net;

/// Calls `ipnet::Ipv4Net::new` on the address `a.b.c.d`. ipnet refuses a
/// prefix length above 32 and otherwise stores the address and the length as
/// given.
#[verifier::external_body]
fn new_ipv4_net(a: u8, b: u8, c: u8, d: u8, prefix_len: u8) -> (r: Result<Ipv4Net, PrefixLenError>)
    ensures
        r is Ok <==> prefix_len <= 32,
        r matches Ok(net) ==> net == ipv4_net(a, b, c, d, prefix_len),
{
    Ipv4Net::new([a, b, c, d].into(), prefix_len)
}

/// Why an IPv4 prefix could not be decoded.
#[derive(Clone, Copy, Debug, PartialEq, Eq)]
pub enum Ipv4PrefixParsingError {
    /// A primitive read failed.
    NomError(ErrorKind),
    /// The prefix length is more than the 32 bits of an IPv4 address.
    InvalidIpv4PrefixLen(u8),
}

/// An [`Ipv4PrefixParsingError`] and the cursor at which it occurred.
#[derive(Clone, Copy, Debug, PartialEq, Eq)]
pub struct LocatedIpv4PrefixParsingError<'a> {
    span: Span<'a>,
    error: Ipv4PrefixParsingError,
}

impl<'a> View for LocatedIpv4PrefixParsingError<'a> {
    type V = Located<Ipv4PrefixParsingError>;

    closed spec fn view(&self) -> Located<Ipv4PrefixParsingError> {
        Located { span: self.span@, error: self.error }
    }
}

impl<'a> LocatedIpv4PrefixParsingError<'a> {
    /// The error `error`, recorded at `span`.
    pub fn new(span: Span<'a>, error: Ipv4PrefixParsingError) -> (located: Self)
        ensures
            located@ == (Located { span: span@, error }),
    {
        Self { span, error }
    }

    /// The cursor at which decoding stopped.
    pub fn span(&self) -> (span: &Span<'a>)
        ensures
            span@ == self@.span,
    {
        &self.span
    }

    /// What went wrong.
    pub fn error(&self) -> (error: &Ipv4PrefixParsingError)
        ensures
            *error == self@.error,
    {
        &self.error
    }

    /// The same error as the decoder of a withdrawn route reports it: at
    /// the same cursor, and wrapped once.
    pub fn into_located_bgp_withdraw_route_parsing_error(self) -> (outer:
        LocatedWithdrawRouteParsingError<'a>)
        ensures
            outer@ == (Located {
                span: self@.span,
                error: WithdrawRouteParsingError::Ipv4PrefixParsingError(self@.error),
            }),
    {
        LocatedWithdrawRouteParsingError::new(
            self.span,
            WithdrawRouteParsingError::Ipv4PrefixParsingError(self.error),
        )
    }

    /// The same error as the decoder of reachability information reports
    /// it: at the same cursor, and wrapped once.
    pub fn into_located_nlri_parsing_error(self) -> (outer:
        LocatedNetworkLayerReachabilityInformationParsingError<'a>)
        ensures
            outer@ == (Located {
                span: self@.span,
                error: NetworkLayerReachabilityInformationParsingError::Ipv4PrefixParsingError(
                    self@.error,
                ),
            }),
    {
        LocatedNetworkLayerReachabilityInformationParsingError::new(
            self.span,
            NetworkLayerReachabilityInformationParsingError::Ipv4PrefixParsingError(self.error),
        )
    }
}

/// Why a BGP message could not be decoded, as far as the decoders of this
/// crate give rise to it. `P` is the error of the path attribute decoder.
#[derive(Clone, Debug, PartialEq, Eq)]
pub enum BGPMessageParsingError<P> {
    /// A primitive read failed.
    NomError(ErrorKind),
    /// The body of an UPDATE message could not be decoded.
    BGPUpdateMessageParsingError(BGPUpdateMessageParsingError<P>),
}

/// A [`BGPMessageParsingError`] and the cursor at which it occurred.
#[derive(Clone, Debug, PartialEq, Eq)]
pub struct LocatedBGPMessageParsingError<'a, P> {
    span: Span<'a>,
    error: BGPMessageParsingError<P>,
}

impl<'a, P> View for LocatedBGPMessageParsingError<'a, P> {
    type V = Located<BGPMessageParsingError<P>>;

    closed spec fn view(&self) -> Located<BGPMessageParsingError<P>> {
        Located { span: self.span@, error: self.error }
    }
}

impl<'a, P> LocatedBGPMessageParsingError<'a, P> {
    /// The error `error`, recorded at `span`.
    pub fn new(span: Span<'a>, error: BGPMessageParsingError<P>) -> (located: Self)
        ensures
            located@ == (Located { span: span@, error }),
    {
        Self { span, error }
    }

    /// The cursor at which decoding stopped.
    pub fn span(&self) -> (span: &Span<'a>)
        ensures
            span@ == self@.span,
    {
        &self.span
    }

    /// What went wrong.
    pub fn error(&self) -> (error: &BGPMessageParsingError<P>)
        ensures
            *error == self@.error,
    {
        &self.error
    }

    /// The error of a primitive read that failed at `input`.
    pub fn from_error_kind(input: Span<'a>, kind: ErrorKind) -> (located: Self)
        ensures
            located@ == (Located {
                span: input@,
                error: BGPMessageParsingError::<P>::NomError(kind),
            }),
    {
        Self::new(input, BGPMessageParsingError::NomError(kind))
    }

    /// Joins an error that came up at `input` to `other`, which was
    /// recorded before: the first error is the one that is kept.
    pub fn append(_input: Span<'a>, _kind: ErrorKind, other: Self) -> (located: Self)
        ensures
            located == other,
    {
        other
    }

    /// An error that this scope has found for itself at `input`.
    pub fn from_external_error(
        input: Span<'a>,
        _kind: ErrorKind,
        error: BGPMessageParsingError<P>,
    ) -> (located: Self)
        ensures
            located@ == (Located { span: input@, error }),
    {
        Self::new(input, error)
    }
}

/// The number of bytes that hold a prefix of `prefix_len` bits: as many as
/// the bits need, and never more than the four of an IPv4 address.
pub open spec fn prefix_octets(prefix_len: u8) -> nat {
    if prefix_len > 24 {
        4
    } else {
        ((prefix_len + 7) / 8) as nat
    }
}

/// Byte `index` of a prefix whose bytes are `prefix`: bytes that the wire
/// does not carry are zero.
pub open spec fn octet(prefix: Seq<u8>, index: int) -> u8 {
    if 0 <= index < prefix.len() {
        prefix[index]
    } else {
        0
    }
}

/// The IPv4 prefix at the start of `buf`: one byte with the prefix length in
/// bits, then the bytes of the address that the length covers.
///
/// - No length byte: `Eof` at `buf`.
/// - Fewer address bytes than `prefix_octets` asks for: `Eof` behind the
///   length byte.
/// - A length above 32: `InvalidIpv4PrefixLen` with that length, at `buf`.
pub open spec fn ipv4_network_spec(buf: SpanView) -> Result<
    (SpanView, Ipv4Net),
    ParseFailure<Located<Ipv4PrefixParsingError>>,
> {
    if buf.len() < 1 {
        Err(
            ParseFailure::Error(
                Located { span: buf, error: Ipv4PrefixParsingError::NomError(ErrorKind::Eof) },
            ),
        )
    } else {
        let prefix_len = buf.bytes[0];
        let body = buf.skip(1);
        let count = prefix_octets(prefix_len);
        if body.len() < count {
            Err(
                ParseFailure::Error(
                    Located { span: body, error: Ipv4PrefixParsingError::NomError(ErrorKind::Eof) },
                ),
            )
        } else if prefix_len > 32 {
            Err(
                ParseFailure::Error(
                    Located {
                        span: buf,
                        error: Ipv4PrefixParsingError::InvalidIpv4PrefixLen(prefix_len),
                    },
                ),
            )
        } else {
            let prefix = body.bytes.take(count as int);
            Ok(
                (
                    body.skip(count),
                    ipv4_net(
                        octet(prefix, 0),
                        octet(prefix, 1),
                        octet(prefix, 2),
                        octet(prefix, 3),
                        prefix_len,
                    ),
                ),
            )
        }
    }
}

/// A decoded prefix has consumed its length byte and the bytes that its
/// length covers, and nothing else; the cursor of an error lies within
/// `buf`.
pub proof fn lemma_ipv4_network_consumes(buf: SpanView)
    ensures
        match ipv4_network_spec(buf) {
            Ok((rest, _)) => buf.bytes[0] <= 32 && rest == buf.skip(
                1 + prefix_octets(buf.bytes[0]),
            ) && rest.len() < buf.len() && rest.within(buf) && rest.reaches_the_end_of(buf),
            Err(failure) => failure_within(failure, buf),
        },
{
    if buf.len() >= 1 + prefix_octets(buf.bytes[0]) {
        buf.lemma_skip_skip(1, prefix_octets(buf.bytes[0]));
    }
}

fn octet_at(prefix: &[u8], index: usize) -> (value: u8)
    ensures
        value == octet(prefix@, index as int),
{
    if index < prefix.len() {
        prefix[index]
    } else {
        0
    }
}

/// Decodes one IPv4 prefix from the start of `buf`.
pub fn ipv4_network_from_wire<'a>(buf: Span<'a>) -> (r: Result<
    (Span<'a>, Ipv4Net),
    ParseFailure<LocatedIpv4PrefixParsingError<'a>>,
>)
    ensures
        parsed(r) == ipv4_network_spec(buf@),
{
    let (body, prefix_len) = match be_u8(buf) {
        Ok(read) => read,
        Err(kind) => {
            return Err(
                ParseFailure::Error(
                    LocatedIpv4PrefixParsingError::new(buf, Ipv4PrefixParsingError::NomError(kind)),
                ),
            );
        },
    };
    let count: usize = if prefix_len > 24 {
        4
    } else {
        (prefix_len as usize + 7) / 8
    };
    let (rest, prefix) = match take(body, count) {
        Ok(read) => read,
        Err(kind) => {
            return Err(
                ParseFailure::Error(
                    LocatedIpv4PrefixParsingError::new(
                        body,
                        Ipv4PrefixParsingError::NomError(kind),
                    ),
                ),
            );
        },
    };
    let bytes = prefix.fragment();
    match new_ipv4_net(
        octet_at(bytes, 0),
        octet_at(bytes, 1),
        octet_at(bytes, 2),
        octet_at(bytes, 3),
        prefix_len,
    ) {
        Ok(net) => Ok((rest, net)),
        Err(_) => Err(
            ParseFailure::Error(
                LocatedIpv4PrefixParsingError::new(
                    buf,
                    Ipv4PrefixParsingError::InvalidIpv4PrefixLen(prefix_len),
                ),
            ),
        ),
    }
}

} // verus!
