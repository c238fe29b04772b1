use netgauze_bgp_pkt::error::ErrorKind;
use netgauze_bgp_pkt::error::Needed;
use netgauze_bgp_pkt::error::ParseFailure;
use netgauze_bgp_pkt::iana::UndefinedBGPCapabilityCode;
use netgauze_bgp_pkt::span::Span;
use netgauze_bgp_pkt::wire::deserializer::capabilities::BGPCapabilityParsingError;
use netgauze_bgp_pkt::wire::deserializer::capabilities::FourOctetASCapabilityParsingError;
use netgauze_bgp_pkt::wire::deserializer::capabilities::LocatedBGPCapabilityParsingError;
use netgauze_bgp_pkt::wire::deserializer::capabilities::LocatedFourOctetASCapabilityParsingError;
use netgauze_bgp_pkt::wire::deserializer::open::BGPParameterParsingError;
use netgauze_bgp_pkt::wire::deserializer::open::LocatedBGPParameterParsingError;
use netgauze_bgp_pkt::wire::deserializer::path_attribute::LocatedPathAttributeParsingError;
use netgauze_bgp_pkt::wire::deserializer::update::BGPUpdateMessageParsingError;
use netgauze_bgp_pkt::wire::deserializer::update::LocatedBGPUpdateMessageParsingError;
use netgauze_bgp_pkt::wire::deserializer::update::LocatedNetworkLayerReachabilityInformationParsingError;
use netgauze_bgp_pkt::wire::deserializer::update::LocatedWithdrawRouteParsingError;
use netgauze_bgp_pkt::wire::deserializer::update::NetworkLayerReachabilityInformationParsingError;
use netgauze_bgp_pkt::wire::deserializer::update::WithdrawRouteParsingError;
use netgauze_bgp_pkt::wire::deserializer::BGPMessageParsingError;
use netgauze_bgp_pkt::wire::deserializer::Ipv4PrefixParsingError;
use netgauze_bgp_pkt::wire::deserializer::LocatedBGPMessageParsingError;
use netgauze_bgp_pkt::wire::deserializer::LocatedIpv4PrefixParsingError;

const WIRE: [u8; 4] = [1, 2, 3, 4];

fn span() -> Span<'static> {
    Span::new_from_offset(12, &WIRE[1..]).unwrap()
}

fn other_span() -> Span<'static> {
    Span::new_from_offset(3, &WIRE).unwrap()
}

#[test]
fn test_located_capability_error() {
    let located = LocatedBGPCapabilityParsingError::new(
        span(),
        BGPCapabilityParsingError::InvalidRouteRefreshLength(1),
    );
    assert_eq!(located.span(), &span());
    assert_eq!(located.span().location_offset(), 12);
    assert_eq!(
        located.error(),
        &BGPCapabilityParsingError::InvalidRouteRefreshLength(1)
    );
    assert_eq!(
        LocatedBGPCapabilityParsingError::from_error_kind(span(), ErrorKind::Eof),
        LocatedBGPCapabilityParsingError::new(
            span(),
            BGPCapabilityParsingError::NomError(ErrorKind::Eof)
        )
    );
    assert_eq!(
        LocatedBGPCapabilityParsingError::append(other_span(), ErrorKind::Many0, located.clone()),
        located
    );
    assert_eq!(
        LocatedBGPCapabilityParsingError::from_external_error(
            span(),
            ErrorKind::Eof,
            BGPCapabilityParsingError::InvalidRouteRefreshLength(1)
        ),
        located
    );
    assert_eq!(
        LocatedBGPCapabilityParsingError::from_undefined_capability_code(
            span(),
            ErrorKind::Eof,
            UndefinedBGPCapabilityCode(4)
        ),
        LocatedBGPCapabilityParsingError::new(
            span(),
            BGPCapabilityParsingError::UndefinedCapabilityCode(UndefinedBGPCapabilityCode(4))
        )
    );
    assert_eq!(
        located.into_located(),
        LocatedBGPParameterParsingError::new(
            span(),
            BGPParameterParsingError::CapabilityError(
                BGPCapabilityParsingError::InvalidRouteRefreshLength(1)
            )
        )
    );
}

#[test]
fn test_located_four_octet_as_error() {
    let located = LocatedFourOctetASCapabilityParsingError::new(
        span(),
        FourOctetASCapabilityParsingError::InvalidLength(3),
    );
    assert_eq!(located.span(), &span());
    assert_eq!(
        located.error(),
        &FourOctetASCapabilityParsingError::InvalidLength(3)
    );
    assert_eq!(
        LocatedFourOctetASCapabilityParsingError::from_error_kind(span(), ErrorKind::Eof),
        LocatedFourOctetASCapabilityParsingError::new(
            span(),
            FourOctetASCapabilityParsingError::NomError(ErrorKind::Eof)
        )
    );
    assert_eq!(
        LocatedFourOctetASCapabilityParsingError::append(
            other_span(),
            ErrorKind::Eof,
            located.clone()
        ),
        located
    );
    assert_eq!(
        LocatedFourOctetASCapabilityParsingError::from_external_error(
            span(),
            ErrorKind::Eof,
            FourOctetASCapabilityParsingError::InvalidLength(3)
        ),
        located
    );
    assert_eq!(
        located.into_located(),
        LocatedBGPCapabilityParsingError::new(
            span(),
            BGPCapabilityParsingError::FourOctetASCapabilityError(
                FourOctetASCapabilityParsingError::InvalidLength(3)
            )
        )
    );
}

#[test]
fn test_located_parameter_error() {
    let located = LocatedBGPParameterParsingError::new(
        span(),
        BGPParameterParsingError::NomError(ErrorKind::Eof),
    );
    assert_eq!(located.span(), &span());
    assert_eq!(
        located.error(),
        &BGPParameterParsingError::NomError(ErrorKind::Eof)
    );
    assert_eq!(
        LocatedBGPParameterParsingError::from_error_kind(span(), ErrorKind::Eof),
        located
    );
    assert_eq!(
        LocatedBGPParameterParsingError::append(other_span(), ErrorKind::Many0, located.clone()),
        located
    );
    assert_eq!(
        LocatedBGPParameterParsingError::from_external_error(
            span(),
            ErrorKind::Many0,
            BGPParameterParsingError::NomError(ErrorKind::Eof)
        ),
        located
    );
}

#[test]
fn test_located_update_error() {
    let located: LocatedBGPUpdateMessageParsingError<'_, u16> =
        LocatedBGPUpdateMessageParsingError::new(
            span(),
            BGPUpdateMessageParsingError::PathAttributeError(9),
        );
    assert_eq!(located.span(), &span());
    assert_eq!(
        located.error(),
        &BGPUpdateMessageParsingError::PathAttributeError(9)
    );
    assert_eq!(
        LocatedBGPUpdateMessageParsingError::<u16>::from_error_kind(span(), ErrorKind::Many0),
        LocatedBGPUpdateMessageParsingError::new(
            span(),
            BGPUpdateMessageParsingError::NomError(ErrorKind::Many0)
        )
    );
    assert_eq!(
        LocatedBGPUpdateMessageParsingError::append(other_span(), ErrorKind::Eof, located.clone()),
        located
    );
    assert_eq!(
        LocatedBGPUpdateMessageParsingError::from_external_error(
            span(),
            ErrorKind::Eof,
            BGPUpdateMessageParsingError::PathAttributeError(9u16)
        ),
        located
    );
    assert_eq!(
        located.into_located(),
        LocatedBGPMessageParsingError::new(
            span(),
            BGPMessageParsingError::BGPUpdateMessageParsingError(
                BGPUpdateMessageParsingError::PathAttributeError(9)
            )
        )
    );
}

#[test]
fn test_located_message_error() {
    let located: LocatedBGPMessageParsingError<'_, u16> =
        LocatedBGPMessageParsingError::new(span(), BGPMessageParsingError::NomError(ErrorKind::Eof));
    assert_eq!(located.span(), &span());
    assert_eq!(
        located.error(),
        &BGPMessageParsingError::NomError(ErrorKind::Eof)
    );
    assert_eq!(
        LocatedBGPMessageParsingError::<u16>::from_error_kind(span(), ErrorKind::Eof),
        located
    );
    assert_eq!(
        LocatedBGPMessageParsingError::append(other_span(), ErrorKind::Eof, located.clone()),
        located
    );
    assert_eq!(
        LocatedBGPMessageParsingError::from_external_error(
            span(),
            ErrorKind::Many0,
            BGPMessageParsingError::<u16>::NomError(ErrorKind::Eof)
        ),
        located
    );
}

#[test]
fn test_located_withdraw_route_error() {
    let located = LocatedWithdrawRouteParsingError::new(
        span(),
        WithdrawRouteParsingError::NomError(ErrorKind::Eof),
    );
    assert_eq!(located.span(), &span());
    assert_eq!(
        located.error(),
        &WithdrawRouteParsingError::NomError(ErrorKind::Eof)
    );
    assert_eq!(
        LocatedWithdrawRouteParsingError::from_external_error(
            span(),
            ErrorKind::Many0,
            WithdrawRouteParsingError::NomError(ErrorKind::Eof)
        ),
        located
    );
    assert_eq!(
        located.into_located::<u16>(),
        LocatedBGPUpdateMessageParsingError::new(
            span(),
            BGPUpdateMessageParsingError::WithdrawRouteError(WithdrawRouteParsingError::NomError(
                ErrorKind::Eof
            ))
        )
    );
}

#[test]
fn test_located_nlri_error() {
    let located = LocatedNetworkLayerReachabilityInformationParsingError::new(
        span(),
        NetworkLayerReachabilityInformationParsingError::NomError(ErrorKind::Many0),
    );
    assert_eq!(located.span(), &span());
    assert_eq!(
        located.error(),
        &NetworkLayerReachabilityInformationParsingError::NomError(ErrorKind::Many0)
    );
    assert_eq!(
        LocatedNetworkLayerReachabilityInformationParsingError::from_external_error(
            span(),
            ErrorKind::Eof,
            NetworkLayerReachabilityInformationParsingError::NomError(ErrorKind::Many0)
        ),
        located
    );
    assert_eq!(
        located.into_located::<u16>(),
        LocatedBGPUpdateMessageParsingError::new(
            span(),
            BGPUpdateMessageParsingError::NetworkLayerReachabilityInformationError(
                NetworkLayerReachabilityInformationParsingError::NomError(ErrorKind::Many0)
            )
        )
    );
}

#[test]
fn test_located_prefix_error() {
    let located = LocatedIpv4PrefixParsingError::new(
        span(),
        Ipv4PrefixParsingError::InvalidIpv4PrefixLen(33),
    );
    assert_eq!(located.span(), &span());
    assert_eq!(
        located.error(),
        &Ipv4PrefixParsingError::InvalidIpv4PrefixLen(33)
    );
    assert_eq!(
        located.into_located_bgp_withdraw_route_parsing_error(),
        LocatedWithdrawRouteParsingError::new(
            span(),
            WithdrawRouteParsingError::Ipv4PrefixParsingError(
                Ipv4PrefixParsingError::InvalidIpv4PrefixLen(33)
            )
        )
    );
    assert_eq!(
        located.into_located_nlri_parsing_error(),
        LocatedNetworkLayerReachabilityInformationParsingError::new(
            span(),
            NetworkLayerReachabilityInformationParsingError::Ipv4PrefixParsingError(
                Ipv4PrefixParsingError::InvalidIpv4PrefixLen(33)
            )
        )
    );
}

#[test]
fn test_located_path_attribute_error() {
    let located = LocatedPathAttributeParsingError::new(span(), "unknown attribute");
    assert_eq!(located.span(), &span());
    assert_eq!(located.error(), &"unknown attribute");
    assert_eq!(
        located.into_located(),
        LocatedBGPUpdateMessageParsingError::new(
            span(),
            BGPUpdateMessageParsingError::PathAttributeError("unknown attribute")
        )
    );
}

#[test]
fn test_parse_failure_map() {
    let wrap = |error: u8| -> u16 { error as u16 + 256 };
    assert_eq!(
        ParseFailure::<u8>::Incomplete(Needed::Size(3)).map(wrap),
        ParseFailure::Incomplete(Needed::Size(3))
    );
    assert_eq!(
        ParseFailure::<u8>::Incomplete(Needed::Unknown).map(wrap),
        ParseFailure::Incomplete(Needed::Unknown)
    );
    assert_eq!(ParseFailure::Error(1u8).map(wrap), ParseFailure::Error(257));
    assert_eq!(
        ParseFailure::Failure(2u8).map(wrap),
        ParseFailure::Failure(258)
    );
}
