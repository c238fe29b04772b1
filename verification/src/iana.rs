//! The capability codes that the IANA registry of BGP capabilities assigns.

use vstd::prelude::*;

verus! {

/// A capability code that the registry assigns.
#[derive(Clone, Copy, Debug, PartialEq, Eq, Structural)]
pub enum BGPCapabilityCode {
    /// Multiprotocol extensions (1).
    MultiProtocolExtensions,
    /// Route refresh (2).
    RouteRefreshCapability,
    /// Outbound route filtering (3).
    OutboundRouteFilteringCapability,
    /// Extended next hop encoding (5).
    ExtendedNextHopEncoding,
    /// Extended messages (6).
    BGPExtendedMessage,
    /// BGPsec (7).
    BGPSecCapability,
    /// Multiple labels (8).
    MultipleLabelsCapability,
    /// BGP role (9).
    BGPRole,
    /// Graceful restart (64).
    GracefulRestartCapability,
    /// Four-octet autonomous-system numbers (65).
    FourOctetAS,
    /// Dynamic capability (67).
    SupportForDynamicCapability,
    /// Multisession BGP (68).
    MultiSessionBGPCapability,
    /// ADD-PATH (69).
    ADDPathCapability,
    /// Enhanced route refresh (70).
    EnhancedRouteRefresh,
    /// Long-lived graceful restart (71).
    LongLivedGracefulRestartLLGRCapability,
    /// Routing policy distribution (72).
    RoutingPolicyDistribution,
    /// Host and domain name (73).
    FQDN,
    /// Reserved for experimental use (239).
    Experimental239,
    /// Reserved for experimental use (240).
    Experimental240,
    /// Reserved for experimental use (241).
    Experimental241,
    /// Reserved for experimental use (242).
    Experimental242,
    /// Reserved for experimental use (243).
    Experimental243,
    /// Reserved for experimental use (244).
    Experimental244,
    /// Reserved for experimental use (245).
    Experimental245,
    /// Reserved for experimental use (246).
    Experimental246,
    /// Reserved for experimental use (247).
    Experimental247,
    /// Reserved for experimental use (248).
    Experimental248,
    /// Reserved for experimental use (249).
    Experimental249,
    /// Reserved for experimental use (250).
    Experimental250,
    /// Reserved for experimental use (251).
    Experimental251,
    /// Reserved for experimental use (252).
    Experimental252,
    /// Reserved for experimental use (253).
    Experimental253,
    /// Reserved for experimental use (254).
    Experimental254,
}

/// A byte that the registry assigns to no capability.
#[derive(Clone, Copy, Debug, PartialEq, Eq, Structural)]
pub struct UndefinedBGPCapabilityCode(pub u8);

impl BGPCapabilityCode {
    /// The byte that stands for this code on the wire.
    pub open spec fn value(self) -> u8 {
        match self {
            BGPCapabilityCode::MultiProtocolExtensions => 1,
            BGPCapabilityCode::RouteRefreshCapability => 2,
            BGPCapabilityCode::OutboundRouteFilteringCapability => 3,
            BGPCapabilityCode::ExtendedNextHopEncoding => 5,
            BGPCapabilityCode::BGPExtendedMessage => 6,
            BGPCapabilityCode::BGPSecCapability => 7,
            BGPCapabilityCode::MultipleLabelsCapability => 8,
            BGPCapabilityCode::BGPRole => 9,
            BGPCapabilityCode::GracefulRestartCapability => 64,
            BGPCapabilityCode::FourOctetAS => 65,
            BGPCapabilityCode::SupportForDynamicCapability => 67,
            BGPCapabilityCode::MultiSessionBGPCapability => 68,
            BGPCapabilityCode::ADDPathCapability => 69,
            BGPCapabilityCode::EnhancedRouteRefresh => 70,
            BGPCapabilityCode::LongLivedGracefulRestartLLGRCapability => 71,
            BGPCapabilityCode::RoutingPolicyDistribution => 72,
            BGPCapabilityCode::FQDN => 73,
            BGPCapabilityCode::Experimental239 => 239,
            BGPCapabilityCode::Experimental240 => 240,
            BGPCapabilityCode::Experimental241 => 241,
            BGPCapabilityCode::Experimental242 => 242,
            BGPCapabilityCode::Experimental243 => 243,
            BGPCapabilityCode::Experimental244 => 244,
            BGPCapabilityCode::Experimental245 => 245,
            BGPCapabilityCode::Experimental246 => 246,
            BGPCapabilityCode::Experimental247 => 247,
            BGPCapabilityCode::Experimental248 => 248,
            BGPCapabilityCode::Experimental249 => 249,
            BGPCapabilityCode::Experimental250 => 250,
            BGPCapabilityCode::Experimental251 => 251,
            BGPCapabilityCode::Experimental252 => 252,
            BGPCapabilityCode::Experimental253 => 253,
            BGPCapabilityCode::Experimental254 => 254,
        }
    }

    /// The code that `value` stands for, if the registry assigns it.
    pub open spec fn of(value: u8) -> Option<BGPCapabilityCode> {
        if value == 1 {
            Some(BGPCapabilityCode::MultiProtocolExtensions)
        }         else if value == 2 {
            Some(BGPCapabilityCode::RouteRefreshCapability)
        }         else if value == 3 {
            Some(BGPCapabilityCode::OutboundRouteFilteringCapability)
        }         else if value == 5 {
            Some(BGPCapabilityCode::ExtendedNextHopEncoding)
        }         else if value == 6 {
            Some(BGPCapabilityCode::BGPExtendedMessage)
        }         else if value == 7 {
            Some(BGPCapabilityCode::BGPSecCapability)
        }         else if value == 8 {
            Some(BGPCapabilityCode::MultipleLabelsCapability)
        }         else if value == 9 {
            Some(BGPCapabilityCode::BGPRole)
        }         else if value == 64 {
            Some(BGPCapabilityCode::GracefulRestartCapability)
        }         else if value == 65 {
            Some(BGPCapabilityCode::FourOctetAS)
        }         else if value == 67 {
            Some(BGPCapabilityCode::SupportForDynamicCapability)
        }         else if value == 68 {
            Some(BGPCapabilityCode::MultiSessionBGPCapability)
        }         else if value == 69 {
            Some(BGPCapabilityCode::ADDPathCapability)
        }         else if value == 70 {
            Some(BGPCapabilityCode::EnhancedRouteRefresh)
        }         else if value == 71 {
            Some(BGPCapabilityCode::LongLivedGracefulRestartLLGRCapability)
        }         else if value == 72 {
            Some(BGPCapabilityCode::RoutingPolicyDistribution)
        }         else if value == 73 {
            Some(BGPCapabilityCode::FQDN)
        }         else if value == 239 {
            Some(BGPCapabilityCode::Experimental239)
        }         else if value == 240 {
            Some(BGPCapabilityCode::Experimental240)
        }         else if value == 241 {
            Some(BGPCapabilityCode::Experimental241)
        }         else if value == 242 {
            Some(BGPCapabilityCode::Experimental242)
        }         else if value == 243 {
            Some(BGPCapabilityCode::Experimental243)
        }         else if value == 244 {
            Some(BGPCapabilityCode::Experimental244)
        }         else if value == 245 {
            Some(BGPCapabilityCode::Experimental245)
        }         else if value == 246 {
            Some(BGPCapabilityCode::Experimental246)
        }         else if value == 247 {
            Some(BGPCapabilityCode::Experimental247)
        }         else if value == 248 {
            Some(BGPCapabilityCode::Experimental248)
        }         else if value == 249 {
            Some(BGPCapabilityCode::Experimental249)
        }         else if value == 250 {
            Some(BGPCapabilityCode::Experimental250)
        }         else if value == 251 {
            Some(BGPCapabilityCode::Experimental251)
        }         else if value == 252 {
            Some(BGPCapabilityCode::Experimental252)
        }         else if value == 253 {
            Some(BGPCapabilityCode::Experimental253)
        }         else if value == 254 {
            Some(BGPCapabilityCode::Experimental254)
        } else {
            None
        }
    }

    /// Each code is the code of its own byte.
    pub proof fn lemma_value_round_trip(self)
        ensures
            BGPCapabilityCode::of(self.value()) == Some(self),
    {
    }

    /// A byte with a code is the byte of that code, and the assigned bytes
    /// are 1 to 3, 5 to 9, 64, 65, 67 to 73 and 239 to 254.
    pub proof fn lemma_of_round_trip(value: u8)
        ensures
            BGPCapabilityCode::of(value) matches Some(code) ==> code.value() == value,
            BGPCapabilityCode::of(value) is Some <==> (1 <= value <= 3 || 5 <= value <= 9 || value
                == 64 || value == 65 || 67 <= value <= 73 || 239 <= value <= 254),
    {
    }

    /// The byte that stands for this code on the wire.
    pub fn into_u8(self) -> (value: u8)
        ensures
            value == self.value(),
    {
        match self {
            BGPCapabilityCode::MultiProtocolExtensions => 1,
            BGPCapabilityCode::RouteRefreshCapability => 2,
            BGPCapabilityCode::OutboundRouteFilteringCapability => 3,
            BGPCapabilityCode::ExtendedNextHopEncoding => 5,
            BGPCapabilityCode::BGPExtendedMessage => 6,
            BGPCapabilityCode::BGPSecCapability => 7,
            BGPCapabilityCode::MultipleLabelsCapability => 8,
            BGPCapabilityCode::BGPRole => 9,
            BGPCapabilityCode::GracefulRestartCapability => 64,
            BGPCapabilityCode::FourOctetAS => 65,
            BGPCapabilityCode::SupportForDynamicCapability => 67,
            BGPCapabilityCode::MultiSessionBGPCapability => 68,
            BGPCapabilityCode::ADDPathCapability => 69,
            BGPCapabilityCode::EnhancedRouteRefresh => 70,
            BGPCapabilityCode::LongLivedGracefulRestartLLGRCapability => 71,
            BGPCapabilityCode::RoutingPolicyDistribution => 72,
            BGPCapabilityCode::FQDN => 73,
            BGPCapabilityCode::Experimental239 => 239,
            BGPCapabilityCode::Experimental240 => 240,
            BGPCapabilityCode::Experimental241 => 241,
            BGPCapabilityCode::Experimental242 => 242,
            BGPCapabilityCode::Experimental243 => 243,
            BGPCapabilityCode::Experimental244 => 244,
            BGPCapabilityCode::Experimental245 => 245,
            BGPCapabilityCode::Experimental246 => 246,
            BGPCapabilityCode::Experimental247 => 247,
            BGPCapabilityCode::Experimental248 => 248,
            BGPCapabilityCode::Experimental249 => 249,
            BGPCapabilityCode::Experimental250 => 250,
            BGPCapabilityCode::Experimental251 => 251,
            BGPCapabilityCode::Experimental252 => 252,
            BGPCapabilityCode::Experimental253 => 253,
            BGPCapabilityCode::Experimental254 => 254,
        }
    }

    /// Looks `value` up in the registry. A byte without a code is handed
    /// back in the error, so that the caller can go on with it.
    pub fn try_from_u8(value: u8) -> (r: Result<BGPCapabilityCode, UndefinedBGPCapabilityCode>)
        ensures
            match r {
                Ok(code) => BGPCapabilityCode::of(value) == Some(code),
                Err(undefined) => BGPCapabilityCode::of(value) is None && undefined.0 == value,
            },
    {
        match value {
            1 => Ok(BGPCapabilityCode::MultiProtocolExtensions),
            2 => Ok(BGPCapabilityCode::RouteRefreshCapability),
            3 => Ok(BGPCapabilityCode::OutboundRouteFilteringCapability),
            5 => Ok(BGPCapabilityCode::ExtendedNextHopEncoding),
            6 => Ok(BGPCapabilityCode::BGPExtendedMessage),
            7 => Ok(BGPCapabilityCode::BGPSecCapability),
            8 => Ok(BGPCapabilityCode::MultipleLabelsCapability),
            9 => Ok(BGPCapabilityCode::BGPRole),
            64 => Ok(BGPCapabilityCode::GracefulRestartCapability),
            65 => Ok(BGPCapabilityCode::FourOctetAS),
            67 => Ok(BGPCapabilityCode::SupportForDynamicCapability),
            68 => Ok(BGPCapabilityCode::MultiSessionBGPCapability),
            69 => Ok(BGPCapabilityCode::ADDPathCapability),
            70 => Ok(BGPCapabilityCode::EnhancedRouteRefresh),
            71 => Ok(BGPCapabilityCode::LongLivedGracefulRestartLLGRCapability),
            72 => Ok(BGPCapabilityCode::RoutingPolicyDistribution),
            73 => Ok(BGPCapabilityCode::FQDN),
            239 => Ok(BGPCapabilityCode::Experimental239),
            240 => Ok(BGPCapabilityCode::Experimental240),
            241 => Ok(BGPCapabilityCode::Experimental241),
            242 => Ok(BGPCapabilityCode::Experimental242),
            243 => Ok(BGPCapabilityCode::Experimental243),
            244 => Ok(BGPCapabilityCode::Experimental244),
            245 => Ok(BGPCapabilityCode::Experimental245),
            246 => Ok(BGPCapabilityCode::Experimental246),
            247 => Ok(BGPCapabilityCode::Experimental247),
            248 => Ok(BGPCapabilityCode::Experimental248),
            249 => Ok(BGPCapabilityCode::Experimental249),
            250 => Ok(BGPCapabilityCode::Experimental250),
            251 => Ok(BGPCapabilityCode::Experimental251),
            252 => Ok(BGPCapabilityCode::Experimental252),
            253 => Ok(BGPCapabilityCode::Experimental253),
            254 => Ok(BGPCapabilityCode::Experimental254),
            _ => Err(UndefinedBGPCapabilityCode(value)),
        }
    }
}

} // verus!
