//! Decoding the body of an UPDATE message.
//!
//! On the wire the body is a two-byte length and that many bytes of
//! withdrawn routes, a two-byte length and that many bytes of path
//! attributes, and then reachability information up to the end of the body.
//! Neither length counts itself. Withdrawn routes and reachability
//! information are IPv4 prefixes, one after another.

use crate::error::error_at;
use crate::error::ErrorKind;
use crate::error::failure_within;
use crate::error::Located;
use crate::error::Needed;
use crate::error::parsed;
use crate::error::parsed_view;
use crate::error::parsed_views;
use crate::error::ParseFailure;
use crate::error::rewrap;
use crate::error::views;
use crate::readers::be_u16_value;
use crate::readers::length_data_u16;
use crate::readers::shortfall;
use crate::sequence::lemma_repeat_leaves_nothing;
use crate::sequence::lemma_repeat_reaches_the_end;
use crate::sequence::lemma_repeat_stays_within;
use crate::sequence::lemma_repeat_with_progress;
use crate::sequence::lemma_till_empty_decodes_as;
use crate::sequence::parse_till_empty;
use crate::sequence::repeat_spec;
use crate::sequence::SequenceFailure;
use crate::sequence::SequenceFailureView;
use crate::span::Span;
use crate::span::SpanView;
use crate::update::BGPUpdateMessage;
use crate::update::BGPUpdateMessageView;
use crate::update::NetworkLayerReachabilityInformation;
use crate::update::WithdrawRoute;
use crate::wire::deserializer::BGPMessageParsingError;
use crate::wire::deserializer::ipv4_network_from_wire;
use crate::wire::deserializer::ipv4_network_spec;
use crate::wire::deserializer::Ipv4PrefixParsingError;
use crate::wire::deserializer::lemma_ipv4_network_consumes;
use crate::wire::deserializer::LocatedBGPMessageParsingError;
use crate::wire::deserializer::LocatedIpv4PrefixParsingError;
use crate::wire::deserializer::path_attribute::LocatedPathAttributeParsingError;
use ipnet::Ipv4Net;
use vstd::prelude::*;

verus! {

/// Why the body of an UPDATE message could not be decoded. `P` is the error
/// of the path attribute decoder.
#[derive(Clone, Debug, PartialEq, Eq)]
pub enum BGPUpdateMessageParsingError<P> {
    /// A primitive read failed.
    NomError(ErrorKind),
    /// A withdrawn route could not be decoded.
    WithdrawRouteError(WithdrawRouteParsingError),
    /// The path attribute decoder failed.
    PathAttributeError(P),
    /// The reachability information could not be decoded.
    NetworkLayerReachabilityInformationError(NetworkLayerReachabilityInformationParsingError),
}

/// A [`BGPUpdateMessageParsingError`] and the cursor at which it occurred.
#[derive(Clone, Debug, PartialEq, Eq)]
pub struct LocatedBGPUpdateMessageParsingError<'a, P> {
    span: Span<'a>,
    error: BGPUpdateMessageParsingError<P>,
}

impl<'a, P> View for LocatedBGPUpdateMessageParsingError<'a, P> {
    type V = Located<BGPUpdateMessageParsingError<P>>;

    closed spec fn view(&self) -> Located<BGPUpdateMessageParsingError<P>> {
        Located { span: self.span@, error: self.error }
    }
}

impl<'a, P> LocatedBGPUpdateMessageParsingError<'a, P> {
    /// The error `error`, recorded at `span`.
    pub fn new(span: Span<'a>, error: BGPUpdateMessageParsingError<P>) -> (located: Self)
        ensures
            located@ == (Located { span: span@, error }),
    {
        Self { span, error }
    }

    /// The cursor at which decoding stopped.
    pub fn span(&self) -> (span: &Span<'a>)
        ensures
            span@ == self@.span,
    {
        &self.span
    }

    /// What went wrong.
    pub fn error(&self) -> (error: &BGPUpdateMessageParsingError<P>)
        ensures
            *error == self@.error,
    {
        &self.error
    }

    /// The error of a primitive read that failed at `input`.
    pub fn from_error_kind(input: Span<'a>, kind: ErrorKind) -> (located: Self)
        ensures
            located@ == (Located {
                span: input@,
                error: BGPUpdateMessageParsingError::<P>::NomError(kind),
            }),
    {
        Self::new(input, BGPUpdateMessageParsingError::NomError(kind))
    }

    /// Joins an error that came up at `input` to `other`, which was
    /// recorded before: the first error is the one that is kept.
    pub fn append(_input: Span<'a>, _kind: ErrorKind, other: Self) -> (located: Self)
        ensures
            located == other,
    {
        other
    }

    /// An error that this scope has found for itself at `input`.
    pub fn from_external_error(
        input: Span<'a>,
        _kind: ErrorKind,
        error: BGPUpdateMessageParsingError<P>,
    ) -> (located: Self)
        ensures
            located@ == (Located { span: input@, error }),
    {
        Self::new(input, error)
    }

    /// The same error as the enclosing decoder reports it: at the same
    /// cursor, and wrapped once.
    pub fn into_located(self) -> (outer: LocatedBGPMessageParsingError<'a, P>)
        ensures
            outer@ == (Located {
                span: self@.span,
                error: BGPMessageParsingError::BGPUpdateMessageParsingError(self@.error),
            }),
    {
        LocatedBGPMessageParsingError::new(
            self.span,
            BGPMessageParsingError::BGPUpdateMessageParsingError(self.error),
        )
    }
}

/// Why a withdrawn route could not be decoded.
#[derive(Clone, Copy, Debug, PartialEq, Eq)]
pub enum WithdrawRouteParsingError {
    /// A primitive read failed.
    NomError(ErrorKind),
    /// The prefix of the route could not be decoded.
    Ipv4PrefixParsingError(Ipv4PrefixParsingError),
}

/// A [`WithdrawRouteParsingError`] and the cursor at which it occurred.
#[derive(Clone, Debug, PartialEq, Eq)]
pub struct LocatedWithdrawRouteParsingError<'a> {
    span: Span<'a>,
    error: WithdrawRouteParsingError,
}

impl<'a> View for LocatedWithdrawRouteParsingError<'a> {
    type V = Located<WithdrawRouteParsingError>;

    closed spec fn view(&self) -> Located<WithdrawRouteParsingError> {
        Located { span: self.span@, error: self.error }
    }
}

impl<'a> LocatedWithdrawRouteParsingError<'a> {
    /// The error `error`, recorded at `span`.
    pub fn new(span: Span<'a>, error: WithdrawRouteParsingError) -> (located: Self)
        ensures
            located@ == (Located { span: span@, error }),
    {
        Self { span, error }
    }

    /// The cursor at which decoding stopped.
    pub fn span(&self) -> (span: &Span<'a>)
        ensures
            span@ == self@.span,
    {
        &self.span
    }

    /// What went wrong.
    pub fn error(&self) -> (error: &WithdrawRouteParsingError)
        ensures
            *error == self@.error,
    {
        &self.error
    }

    /// An error that this scope has found for itself at `input`.
    pub fn from_external_error(
        input: Span<'a>,
        _kind: ErrorKind,
        error: WithdrawRouteParsingError,
    ) -> (located: Self)
        ensures
            located@ == (Located { span: input@, error }),
    {
        Self::new(input, error)
    }

    /// The same error as the enclosing decoder reports it: at the same
    /// cursor, and wrapped once.
    pub fn into_located<P>(self) -> (outer: LocatedBGPUpdateMessageParsingError<'a, P>)
        ensures
            outer@ == (Located {
                span: self@.span,
                error: BGPUpdateMessageParsingError::<P>::WithdrawRouteError(self@.error),
            }),
    {
        LocatedBGPUpdateMessageParsingError::new(
            self.span,
            BGPUpdateMessageParsingError::WithdrawRouteError(self.error),
        )
    }
}

/// Why reachability information could not be decoded.
#[derive(Clone, Copy, Debug, PartialEq, Eq)]
pub enum NetworkLayerReachabilityInformationParsingError {
    /// A primitive read failed.
    NomError(ErrorKind),
    /// A prefix could not be decoded.
    Ipv4PrefixParsingError(Ipv4PrefixParsingError),
}

/// A [`NetworkLayerReachabilityInformationParsingError`] and the cursor at
/// which it occurred.
#[derive(Clone, Debug, PartialEq, Eq)]
pub struct LocatedNetworkLayerReachabilityInformationParsingError<'a> {
    span: Span<'a>,
    error: NetworkLayerReachabilityInformationParsingError,
}

impl<'a> View for LocatedNetworkLayerReachabilityInformationParsingError<'a> {
    type V = Located<NetworkLayerReachabilityInformationParsingError>;

    closed spec fn view(&self) -> Located<NetworkLayerReachabilityInformationParsingError> {
        Located { span: self.span@, error: self.error }
    }
}

impl<'a> LocatedNetworkLayerReachabilityInformationParsingError<'a> {
    /// The error `error`, recorded at `span`.
    pub fn new(
        span: Span<'a>,
        error: NetworkLayerReachabilityInformationParsingError,
    ) -> (located: Self)
        ensures
            located@ == (Located { span: span@, error }),
    {
        Self { span, error }
    }

    /// The cursor at which decoding stopped.
    pub fn span(&self) -> (span: &Span<'a>)
        ensures
            span@ == self@.span,
    {
        &self.span
    }

    /// What went wrong.
    pub fn error(&self) -> (error: &NetworkLayerReachabilityInformationParsingError)
        ensures
            *error == self@.error,
    {
        &self.error
    }

    /// An error that this scope has found for itself at `input`.
    pub fn from_external_error(
        input: Span<'a>,
        _kind: ErrorKind,
        error: NetworkLayerReachabilityInformationParsingError,
    ) -> (located: Self)
        ensures
            located@ == (Located { span: input@, error }),
    {
        Self::new(input, error)
    }

    /// The same error as the enclosing decoder reports it: at the same
    /// cursor, and wrapped once.
    pub fn into_located<P>(self) -> (outer: LocatedBGPUpdateMessageParsingError<'a, P>)
        ensures
            outer@ == (Located {
                span: self@.span,
                error: BGPUpdateMessageParsingError::<P>::NetworkLayerReachabilityInformationError(
                    self@.error,
                ),
            }),
    {
        LocatedBGPUpdateMessageParsingError::new(
            self.span,
            BGPUpdateMessageParsingError::NetworkLayerReachabilityInformationError(self.error),
        )
    }
}

/// The view of a failure of the UPDATE decoder.
pub type UpdateFailure<P> = ParseFailure<Located<BGPUpdateMessageParsingError<P>>>;

/// What the UPDATE decoder returns.
pub type UpdateResult<'a, A, P> = Result<
    (Span<'a>, BGPUpdateMessage<A>),
    ParseFailure<LocatedBGPUpdateMessageParsingError<'a, P>>,
>;

/// The withdrawn route at the start of `buf`: an IPv4 prefix, whose errors
/// are wrapped in `Ipv4PrefixParsingError` and keep their cursor.
pub open spec fn withdraw_route_spec(buf: SpanView) -> Result<
    (SpanView, Ipv4Net),
    ParseFailure<Located<WithdrawRouteParsingError>>,
> {
    match ipv4_network_spec(buf) {
        Ok(decoded) => Ok(decoded),
        Err(failure) => Err(
            rewrap(
                failure,
                |error: Ipv4PrefixParsingError|
                    WithdrawRouteParsingError::Ipv4PrefixParsingError(error),
            ),
        ),
    }
}

/// `withdraw_route_spec` as a function value.
pub open spec fn withdraw_route_step() -> spec_fn(SpanView) -> Result<
    (SpanView, Ipv4Net),
    ParseFailure<Located<WithdrawRouteParsingError>>,
> {
    |at: SpanView| withdraw_route_spec(at)
}

/// The reachable prefix at the start of `buf`: an IPv4 prefix, whose errors
/// are wrapped in `Ipv4PrefixParsingError` and keep their cursor.
pub open spec fn nlri_ipv4_spec(buf: SpanView) -> Result<
    (SpanView, Ipv4Net),
    ParseFailure<Located<NetworkLayerReachabilityInformationParsingError>>,
> {
    match ipv4_network_spec(buf) {
        Ok(decoded) => Ok(decoded),
        Err(failure) => Err(
            rewrap(
                failure,
                |error: Ipv4PrefixParsingError|
                    NetworkLayerReachabilityInformationParsingError::Ipv4PrefixParsingError(error),
            ),
        ),
    }
}

/// `nlri_ipv4_spec` as a function value.
pub open spec fn nlri_ipv4_step() -> spec_fn(SpanView) -> Result<
    (SpanView, Ipv4Net),
    ParseFailure<Located<NetworkLayerReachabilityInformationParsingError>>,
> {
    |at: SpanView| nlri_ipv4_spec(at)
}

/// The reachability information that fills `buf`: prefixes up to the end of
/// `buf`, in wire order. The first prefix that fails fails the whole.
pub open spec fn nlri_spec(buf: SpanView) -> Result<
    (SpanView, Seq<Ipv4Net>),
    ParseFailure<Located<NetworkLayerReachabilityInformationParsingError>>,
> {
    match repeat_spec(nlri_ipv4_step(), buf) {
        Ok(decoded) => Ok(decoded),
        Err(SequenceFailureView::Record(failure)) => Err(failure),
        Err(SequenceFailureView::NoProgress(at)) => Err(
            error_at(
                at,
                NetworkLayerReachabilityInformationParsingError::NomError(ErrorKind::Many0),
            ),
        ),
    }
}

/// `nlri_spec` as a function value.
pub open spec fn nlri_step() -> spec_fn(SpanView) -> Result<
    (SpanView, Seq<Ipv4Net>),
    ParseFailure<Located<NetworkLayerReachabilityInformationParsingError>>,
> {
    |at: SpanView| nlri_spec(at)
}

/// A section behind a two-byte length at the start of `buf`: the cursor
/// behind the section, and the section.
///
/// - Fewer than two bytes: `Eof` at `buf`.
/// - Fewer bytes behind the length than it declares: `Incomplete` with the
///   number of bytes that lack.
pub open spec fn section_spec<P>(buf: SpanView) -> Result<(SpanView, SpanView), UpdateFailure<P>> {
    if buf.len() < 2 {
        Err(error_at(buf, BGPUpdateMessageParsingError::NomError(ErrorKind::Eof)))
    } else {
        let declared = be_u16_value(buf.bytes) as nat;
        match shortfall(declared, (buf.len() - 2) as nat) {
            Some(needed) => Err(ParseFailure::Incomplete(needed)),
            None => Ok((buf.skip(2 + declared), buf.skip(2).take(declared))),
        }
    }
}

/// The withdrawn routes that fill `section`, in wire order. The first route
/// that fails fails the section; its error is wrapped in
/// `WithdrawRouteError` and keeps its cursor.
pub open spec fn withdrawn_routes_spec<P>(section: SpanView) -> Result<
    (SpanView, Seq<Ipv4Net>),
    UpdateFailure<P>,
> {
    match repeat_spec(withdraw_route_step(), section) {
        Ok(decoded) => Ok(decoded),
        Err(SequenceFailureView::Record(failure)) => Err(
            rewrap(
                failure,
                |error: WithdrawRouteParsingError|
                    BGPUpdateMessageParsingError::WithdrawRouteError(error),
            ),
        ),
        Err(SequenceFailureView::NoProgress(at)) => Err(
            error_at(at, BGPUpdateMessageParsingError::NomError(ErrorKind::Many0)),
        ),
    }
}

/// The reachability information that fills `section`: nothing when the
/// section is empty, else one entry with all the prefixes of the section. An
/// error is wrapped in `NetworkLayerReachabilityInformationError` and keeps
/// its cursor.
pub open spec fn reachability_spec<P>(section: SpanView) -> Result<
    (SpanView, Seq<Seq<Ipv4Net>>),
    UpdateFailure<P>,
> {
    match repeat_spec(nlri_step(), section) {
        Ok(decoded) => Ok(decoded),
        Err(SequenceFailureView::Record(failure)) => Err(
            rewrap(
                failure,
                |error: NetworkLayerReachabilityInformationParsingError|
                    BGPUpdateMessageParsingError::NetworkLayerReachabilityInformationError(error),
            ),
        ),
        Err(SequenceFailureView::NoProgress(at)) => Err(
            error_at(at, BGPUpdateMessageParsingError::NomError(ErrorKind::Many0)),
        ),
    }
}

/// The mathematical content of [`UpdateSections`].
pub struct UpdateSectionsView {
    pub withdrawn_routes: Seq<Ipv4Net>,
    pub path_attributes: SpanView,
    pub reachability: SpanView,
}

/// The body of an UPDATE message, taken apart as far as this crate does it
/// by itself: the withdrawn routes are decoded, the path attributes are the
/// bytes of their section, and the reachability information is what follows
/// that section.
#[derive(Clone, Debug, PartialEq, Eq)]
pub struct UpdateSections<'a> {
    withdrawn_routes: Vec<WithdrawRoute>,
    path_attributes: Span<'a>,
    reachability: Span<'a>,
}

impl<'a> View for UpdateSections<'a> {
    type V = UpdateSectionsView;

    closed spec fn view(&self) -> UpdateSectionsView {
        UpdateSectionsView {
            withdrawn_routes: views(self.withdrawn_routes@),
            path_attributes: self.path_attributes@,
            reachability: self.reachability@,
        }
    }
}

/// The sections of the UPDATE body `buf`: the section of withdrawn routes
/// is split off and decoded, then the section of path attributes is split
/// off. Whatever fails first fails the whole.
pub open spec fn update_sections_spec<P>(buf: SpanView) -> Result<
    UpdateSectionsView,
    UpdateFailure<P>,
> {
    match section_spec::<P>(buf) {
        Err(failure) => Err(failure),
        Ok((behind_withdrawn, withdrawn)) => match withdrawn_routes_spec::<P>(withdrawn) {
            Err(failure) => Err(failure),
            Ok((_, withdrawn_routes)) => match section_spec::<P>(behind_withdrawn) {
                Err(failure) => Err(failure),
                Ok((reachability, path_attributes)) => Ok(
                    UpdateSectionsView { withdrawn_routes, path_attributes, reachability },
                ),
            },
        },
    }
}

/// What the path attribute decoder returned, with the error replaced by its
/// view.
pub open spec fn attributes_view<'a, A, P>(
    attributes: Result<Vec<A>, ParseFailure<LocatedPathAttributeParsingError<'a, P>>>,
) -> Result<Seq<A>, ParseFailure<Located<P>>> {
    match attributes {
        Ok(decoded) => Ok(decoded@),
        Err(failure) => Err(failure@),
    }
}

/// The message that `sections` and the outcome `attributes` of the path
/// attribute decoder make.
///
/// - The path attribute decoder has failed: its failure, with the error
///   wrapped in `PathAttributeError` at the cursor it was recorded at.
/// - Else the reachability information is decoded; see `reachability_spec`.
pub open spec fn update_message_spec<A, P>(
    sections: UpdateSectionsView,
    attributes: Result<Seq<A>, ParseFailure<Located<P>>>,
) -> Result<(SpanView, BGPUpdateMessageView<A>), UpdateFailure<P>> {
    match attributes {
        Err(failure) => Err(
            rewrap(failure, |error: P| BGPUpdateMessageParsingError::PathAttributeError(error)),
        ),
        Ok(path_attributes) => match reachability_spec::<P>(sections.reachability) {
            Err(failure) => Err(failure),
            Ok((rest, nlri)) => Ok(
                (
                    rest,
                    BGPUpdateMessageView {
                        withdrawn_routes: sections.withdrawn_routes,
                        path_attributes,
                        nlri,
                    },
                ),
            ),
        },
    }
}

/// What `BGPUpdateMessage::from_wire` may return for the body `buf` when
/// path attributes are decoded by `parse_path_attributes`.
///
/// - The sections cannot be told apart: the failure of
///   `update_sections_spec`, and the path attribute decoder has no part in
///   it.
/// - Else the path attribute decoder was called once, on the section of
///   path attributes and `asn4`, and the result is what
///   `update_message_spec` makes of what it returned.
pub open spec fn update_outcome<'a, A, P, F>(
    parse_path_attributes: F,
    buf: Span<'a>,
    asn4: bool,
    r: UpdateResult<'a, A, P>,
) -> bool where
    F: FnOnce(Span<'a>, bool) -> Result<
        Vec<A>,
        ParseFailure<LocatedPathAttributeParsingError<'a, P>>,
    >,
 {
    match update_sections_spec::<P>(buf@) {
        Err(failure) => r matches Err(returned) && returned@ == failure,
        Ok(sections) => exists|
            section: Span<'a>,
            attributes: Result<Vec<A>, ParseFailure<LocatedPathAttributeParsingError<'a, P>>>,
        |
            {
                &&& section@ == sections.path_attributes
                &&& #[trigger] call_ensures(parse_path_attributes, (section, asn4), attributes)
                &&& parsed_view(r) == update_message_spec(sections, attributes_view(attributes))
            },
    }
}

impl WithdrawRoute {
    /// Decodes the withdrawn route at the start of `buf`.
    pub fn from_wire<'a>(buf: Span<'a>) -> (r: Result<
        (Span<'a>, WithdrawRoute),
        ParseFailure<LocatedWithdrawRouteParsingError<'a>>,
    >)
        ensures
            parsed_view(r) == withdraw_route_spec(buf@),
    {
        match ipv4_network_from_wire(buf) {
            Ok((rest, net)) => Ok((rest, WithdrawRoute::new(net))),
            Err(failure) => Err(
                failure.map(
                    LocatedIpv4PrefixParsingError::into_located_bgp_withdraw_route_parsing_error,
                ),
            ),
        }
    }
}

/// Decodes the reachable prefix at the start of `buf`.
fn parse_nlri_ipv4<'a>(buf: Span<'a>) -> (r: Result<
    (Span<'a>, Ipv4Net),
    ParseFailure<LocatedNetworkLayerReachabilityInformationParsingError<'a>>,
>)
    ensures
        parsed(r) == nlri_ipv4_spec(buf@),
{
    match ipv4_network_from_wire(buf) {
        Ok((rest, net)) => Ok((rest, net)),
        Err(failure) => Err(
            failure.map(LocatedIpv4PrefixParsingError::into_located_nlri_parsing_error),
        ),
    }
}

impl NetworkLayerReachabilityInformation {
    /// Decodes reachability information from all of `buf`, and returns it
    /// with the empty cursor at the end of `buf`.
    pub fn from_wire<'a>(buf: Span<'a>) -> (r: Result<
        (Span<'a>, NetworkLayerReachabilityInformation),
        ParseFailure<LocatedNetworkLayerReachabilityInformationParsingError<'a>>,
    >)
        ensures
            parsed_view(r) == nlri_spec(buf@),
    {
        let parse_one = parse_nlri_ipv4;
        let decoded = parse_till_empty(buf, parse_one);
        proof {
            let model = |net: Ipv4Net| net;
            lemma_till_empty_decodes_as(parse_one, buf, decoded, nlri_ipv4_step(), model);
            if decoded is Ok {
                assert(decoded->Ok_0.1@.map_values(model) =~= decoded->Ok_0.1@);
            }
        }
        match decoded {
            Ok((rest, networks)) => Ok((rest, NetworkLayerReachabilityInformation::new(networks))),
            Err(SequenceFailure::Record(failure)) => Err(failure),
            Err(SequenceFailure::NoProgress(at)) => Err(
                ParseFailure::Error(
                    LocatedNetworkLayerReachabilityInformationParsingError::new(
                        at,
                        NetworkLayerReachabilityInformationParsingError::NomError(ErrorKind::Many0),
                    ),
                ),
            ),
        }
    }
}

/// Splits a section behind a two-byte length off `buf`.
fn parse_section<'a, P>(buf: Span<'a>) -> (r: Result<
    (Span<'a>, Span<'a>),
    ParseFailure<LocatedBGPUpdateMessageParsingError<'a, P>>,
>)
    ensures
        parsed_view(r) == section_spec::<P>(buf@),
{
    match length_data_u16(buf) {
        Ok(read) => Ok(read),
        Err(ParseFailure::Incomplete(needed)) => Err(ParseFailure::Incomplete(needed)),
        Err(ParseFailure::Error(kind)) => Err(
            ParseFailure::Error(LocatedBGPUpdateMessageParsingError::from_error_kind(buf, kind)),
        ),
        Err(ParseFailure::Failure(kind)) => Err(
            ParseFailure::Failure(LocatedBGPUpdateMessageParsingError::from_error_kind(buf, kind)),
        ),
    }
}

/// Decodes the section of withdrawn routes.
fn parse_withdraw_routes<'a, P>(buf: Span<'a>) -> (r: Result<
    (Span<'a>, Vec<WithdrawRoute>),
    ParseFailure<LocatedBGPUpdateMessageParsingError<'a, P>>,
>)
    ensures
        parsed_views(r) == withdrawn_routes_spec::<P>(buf@),
{
    let parse_one = WithdrawRoute::from_wire;
    let decoded = parse_till_empty(buf, parse_one);
    proof {
        let model = |route: WithdrawRoute| route@;
        lemma_till_empty_decodes_as(parse_one, buf, decoded, withdraw_route_step(), model);
    }
    match decoded {
        Ok(routes) => Ok(routes),
        Err(SequenceFailure::Record(failure)) => Err(
            failure.map(LocatedWithdrawRouteParsingError::into_located::<P>),
        ),
        Err(SequenceFailure::NoProgress(at)) => Err(
            ParseFailure::Error(
                LocatedBGPUpdateMessageParsingError::from_error_kind(at, ErrorKind::Many0),
            ),
        ),
    }
}

/// Decodes the reachability information behind the path attributes.
fn parse_reachability<'a, P>(buf: Span<'a>) -> (r: Result<
    (Span<'a>, Vec<NetworkLayerReachabilityInformation>),
    ParseFailure<LocatedBGPUpdateMessageParsingError<'a, P>>,
>)
    ensures
        parsed_views(r) == reachability_spec::<P>(buf@),
{
    let parse_one = NetworkLayerReachabilityInformation::from_wire;
    let decoded = parse_till_empty(buf, parse_one);
    proof {
        let model = |nlri: NetworkLayerReachabilityInformation| nlri@;
        lemma_till_empty_decodes_as(parse_one, buf, decoded, nlri_step(), model);
    }
    match decoded {
        Ok(nlri) => Ok(nlri),
        Err(SequenceFailure::Record(failure)) => Err(
            failure.map(
                LocatedNetworkLayerReachabilityInformationParsingError::into_located::<P>,
            ),
        ),
        Err(SequenceFailure::NoProgress(at)) => Err(
            ParseFailure::Error(
                LocatedBGPUpdateMessageParsingError::from_error_kind(at, ErrorKind::Many0),
            ),
        ),
    }
}

impl<'a> UpdateSections<'a> {
    /// Takes the body `buf` of an UPDATE message apart. `P` is the error of
    /// the path attribute decoder that the caller goes on with.
    pub fn from_wire<P>(buf: Span<'a>) -> (r: Result<
        UpdateSections<'a>,
        ParseFailure<LocatedBGPUpdateMessageParsingError<'a, P>>,
    >)
        ensures
            match (r, update_sections_spec::<P>(buf@)) {
                (Ok(sections), Ok(expected)) => sections@ == expected,
                (Err(failure), Err(expected)) => failure@ == expected,
                _ => false,
            },
    {
        let (behind_withdrawn, withdrawn) = match parse_section::<P>(buf) {
            Ok(split) => split,
            Err(failure) => {
                return Err(failure);
            },
        };
        let withdrawn_routes = match parse_withdraw_routes::<P>(withdrawn) {
            Ok((_, routes)) => routes,
            Err(failure) => {
                return Err(failure);
            },
        };
        let (reachability, path_attributes) = match parse_section::<P>(behind_withdrawn) {
            Ok(split) => split,
            Err(failure) => {
                return Err(failure);
            },
        };
        Ok(UpdateSections { withdrawn_routes, path_attributes, reachability })
    }

    /// The routes that the message withdraws, in wire order.
    pub fn withdrawn_routes(&self) -> (routes: &Vec<WithdrawRoute>)
        ensures
            views(routes@) == self@.withdrawn_routes,
    {
        &self.withdrawn_routes
    }

    /// The section of path attributes, which is to be handed to the path
    /// attribute decoder whole.
    pub fn path_attributes(&self) -> (section: Span<'a>)
        ensures
            section@ == self@.path_attributes,
    {
        self.path_attributes
    }

    /// What follows the path attributes.
    pub fn reachability(&self) -> (section: Span<'a>)
        ensures
            section@ == self@.reachability,
    {
        self.reachability
    }
}

impl<A> BGPUpdateMessage<A> {
    /// Makes the message of `sections` and of what the path attribute
    /// decoder has returned for the section of path attributes.
    pub fn from_sections<'a, P>(
        sections: UpdateSections<'a>,
        path_attributes: Result<Vec<A>, ParseFailure<LocatedPathAttributeParsingError<'a, P>>>,
    ) -> (r: UpdateResult<'a, A, P>)
        ensures
            parsed_view(r) == update_message_spec(sections@, attributes_view(path_attributes)),
    {
        let path_attributes = match path_attributes {
            Ok(decoded) => decoded,
            Err(failure) => {
                return Err(failure.map(LocatedPathAttributeParsingError::into_located));
            },
        };
        match parse_reachability::<P>(sections.reachability) {
            Ok((rest, nlri)) => Ok(
                (rest, BGPUpdateMessage::new(sections.withdrawn_routes, path_attributes, nlri)),
            ),
            Err(failure) => Err(failure),
        }
    }

    /// Decodes the body `buf` of an UPDATE message, and returns the message
    /// with the empty cursor at the end of `buf`.
    ///
    /// `parse_path_attributes` is called at most once, with the section of
    /// path attributes and `asn4`, which says whether the session uses
    /// autonomous-system numbers of four octets.
    pub fn from_wire<'a, P, F>(buf: Span<'a>, asn4: bool, parse_path_attributes: F) -> (r:
        UpdateResult<'a, A, P>) where
        F: FnOnce(Span<'a>, bool) -> Result<
            Vec<A>,
            ParseFailure<LocatedPathAttributeParsingError<'a, P>>,
        >,

        requires
            forall|section: Span<'a>| call_requires(parse_path_attributes, (section, asn4)),
        ensures
            update_outcome(parse_path_attributes, buf, asn4, r),
    {
        let sections = match UpdateSections::from_wire::<P>(buf) {
            Ok(sections) => sections,
            Err(failure) => {
                return Err(failure);
            },
        };
        let section = sections.path_attributes();
        let attributes = parse_path_attributes(section, asn4);
        BGPUpdateMessage::from_sections(sections, attributes)
    }
}

/// Each withdrawn route and each reachable prefix that decodes has consumed
/// its length byte at least, so that a section of them never fails with
/// `NoProgress`, and no decoder of this module reports `Many0`.
pub proof fn lemma_prefix_sections_never_stall(section: SpanView)
    ensures
        !(repeat_spec(withdraw_route_step(), section) matches Err(
            SequenceFailureView::NoProgress(_),
        )),
        !(repeat_spec(nlri_ipv4_step(), section) matches Err(SequenceFailureView::NoProgress(_))),
        !(repeat_spec(nlri_step(), section) matches Err(SequenceFailureView::NoProgress(_))),
{
    lemma_repeat_with_progress(withdraw_route_step(), section);
    lemma_repeat_with_progress(nlri_ipv4_step(), section);
    assert forall|at: SpanView| at.len() > 0 implies ((#[trigger] nlri_step()(at)) matches Ok(
        (next, _),
    ) ==> next.len() < at.len()) by {
        lemma_repeat_leaves_nothing(nlri_ipv4_step(), at);
    }
    lemma_repeat_with_progress(nlri_step(), section);
}

/// Reachability information that decodes is used up, and is one entry with
/// all the prefixes of the section, or no entry for an empty section.
pub proof fn lemma_reachability_is_one_entry<P>(section: SpanView)
    ensures
        reachability_spec::<P>(section) matches Ok((rest, nlri)) ==> rest.len() == 0 && (if
            section.len() == 0 {
            nlri == Seq::<Seq<Ipv4Net>>::empty()
        } else {
            nlri_spec(section) matches Ok((_, networks)) && nlri == seq![networks]
        }),
{
    if section.len() > 0 {
        lemma_repeat_leaves_nothing(nlri_ipv4_step(), section);
        if let Ok((next, networks)) = nlri_spec(section) {
            assert(repeat_spec(nlri_step(), next) == Ok::<
                (SpanView, Seq<Seq<Ipv4Net>>),
                SequenceFailureView<Located<NetworkLayerReachabilityInformationParsingError>>,
            >((next, Seq::empty())));
        }
    }
}

/// A body whose section of withdrawn routes declares more bytes than the
/// buffer holds behind the length is `Incomplete` by the number of bytes
/// that lack: the signal that more input may help, not an error in the
/// bytes at hand. The path attribute decoder has no part in it.
pub proof fn lemma_withdrawn_length_beyond_buffer<'a, A, P, F>(
    parse_path_attributes: F,
    buf: Span<'a>,
    asn4: bool,
    r: UpdateResult<'a, A, P>,
) where
    F: FnOnce(Span<'a>, bool) -> Result<
        Vec<A>,
        ParseFailure<LocatedPathAttributeParsingError<'a, P>>,
    >,

    requires
        update_outcome(parse_path_attributes, buf, asn4, r),
        buf@.len() >= 2,
        be_u16_value(buf@.bytes) > buf@.len() - 2,
    ensures
        r matches Err(ParseFailure::Incomplete(needed)) && needed == Needed::Size(
            (be_u16_value(buf@.bytes) - (buf@.len() - 2)) as usize,
        ),
{
}

/// Decoding the same reachability information twice gives the same
/// prefixes in the same order, or the same failure at the same cursor.
pub proof fn lemma_reachability_decoding_is_repeatable<'a>(
    buf: Span<'a>,
    first: Result<
        (Span<'a>, NetworkLayerReachabilityInformation),
        ParseFailure<LocatedNetworkLayerReachabilityInformationParsingError<'a>>,
    >,
    second: Result<
        (Span<'a>, NetworkLayerReachabilityInformation),
        ParseFailure<LocatedNetworkLayerReachabilityInformationParsingError<'a>>,
    >,
)
    requires
        parsed_view(first) == nlri_spec(buf@),
        parsed_view(second) == nlri_spec(buf@),
    ensures
        parsed_view(first) == parsed_view(second),
        first matches Ok((_, nlri)) ==> second matches Ok((_, again)) && again@ == nlri@,
{
}

/// A message that decodes has used up the body: the cursor behind it is
/// empty and lies at the end of the body.
pub proof fn lemma_update_consumes_the_body<'a, A, P, F>(
    parse_path_attributes: F,
    buf: Span<'a>,
    asn4: bool,
    r: UpdateResult<'a, A, P>,
) where
    F: FnOnce(Span<'a>, bool) -> Result<
        Vec<A>,
        ParseFailure<LocatedPathAttributeParsingError<'a, P>>,
    >,

    requires
        update_outcome(parse_path_attributes, buf, asn4, r),
    ensures
        r matches Ok((rest, _)) ==> rest@.len() == 0 && rest@.offset == buf@.offset + buf@.len(),
{
    if let Ok(sections) = update_sections_spec::<P>(buf@) {
        assert forall|at: SpanView|
            ((#[trigger] nlri_ipv4_step()(at)) matches Ok((next, _)) ==> next.reaches_the_end_of(
                at,
            )) by {
            lemma_ipv4_network_consumes(at);
        }
        assert forall|at: SpanView|
            ((#[trigger] nlri_step()(at)) matches Ok((next, _)) ==> next.reaches_the_end_of(at)) by {
            lemma_repeat_reaches_the_end(nlri_ipv4_step(), at);
        }
        lemma_repeat_reaches_the_end(nlri_step(), sections.reachability);
    }
}

/// The cursor of an error of reachability information lies within the
/// bytes that were to be decoded.
pub proof fn lemma_nlri_errors_lie_within(buf: SpanView)
    ensures
        match nlri_spec(buf) {
            Ok((rest, _)) => rest.within(buf),
            Err(failure) => failure_within(failure, buf),
        },
{
    assert forall|at: SpanView|
        match #[trigger] nlri_ipv4_step()(at) {
            Ok((next, _)) => next.within(at),
            Err(failure) => failure_within(failure, at),
        } by {
        lemma_ipv4_network_consumes(at);
    }
    lemma_repeat_stays_within(nlri_ipv4_step(), buf);
}

/// The cursor of an error that this crate finds in the body of an UPDATE
/// message lies within the body, wherever in the whole buffer the body
/// lies: between the sections and the body, offsets are not counted anew.
pub proof fn lemma_update_errors_lie_within<P>(buf: SpanView)
    ensures
        update_sections_spec::<P>(buf) matches Err(failure) ==> failure_within(failure, buf),
        update_sections_spec::<P>(buf) matches Ok(sections) ==> sections.path_attributes.within(buf)
            && sections.reachability.within(buf) && (reachability_spec::<P>(
            sections.reachability,
        ) matches Err(failure) ==> failure_within(failure, buf)),
{
    if let Ok((behind_withdrawn, withdrawn)) = section_spec::<P>(buf) {
        assert forall|at: SpanView|
            match #[trigger] withdraw_route_step()(at) {
                Ok((next, _)) => next.within(at),
                Err(failure) => failure_within(failure, at),
            } by {
            lemma_ipv4_network_consumes(at);
        }
        lemma_repeat_stays_within(withdraw_route_step(), withdrawn);
        if let Ok(sections) = update_sections_spec::<P>(buf) {
            assert forall|at: SpanView|
                match #[trigger] nlri_step()(at) {
                    Ok((next, _)) => next.within(at),
                    Err(failure) => failure_within(failure, at),
                } by {
                lemma_nlri_errors_lie_within(at);
            }
            lemma_repeat_stays_within(nlri_step(), sections.reachability);
        }
    }
}

} // verus!
