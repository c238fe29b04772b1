//! The capabilities that a BGP speaker announces in its OPEN message.

use vstd::prelude::*;

verus! {

/// The length of the value of a route refresh capability.
pub const ROUTE_REFRESH_CAPABILITY_LENGTH: u8 = 0;

/// The length of the value of an enhanced route refresh capability.
pub const ENHANCED_ROUTE_REFRESH_CAPABILITY_LENGTH: u8 = 0;

/// The length of the value of an extended message capability.
pub const EXTENDED_MESSAGE_CAPABILITY_LENGTH: u8 = 0;

/// The length of the value of a four-octet AS number capability.
pub const FOUR_OCTET_AS_CAPABILITY_LENGTH: u8 = 4;

/// The speaker uses autonomous-system numbers of 32 bits; this one is its
/// own.
#[derive(Clone, Copy, Debug, PartialEq, Eq, Structural)]
pub struct FourOctetASCapability {
    asn4: u32,
}

impl View for FourOctetASCapability {
    type V = u32;

    closed spec fn view(&self) -> u32 {
        self.asn4
    }
}

impl FourOctetASCapability {
    /// The capability of a speaker whose AS number is `asn4`.
    pub fn new(asn4: u32) -> (capability: FourOctetASCapability)
        ensures
            capability@ == asn4,
    {
        FourOctetASCapability { asn4 }
    }

    /// The autonomous-system number.
    pub fn asn4(&self) -> (asn4: u32)
        ensures
            asn4 == self@,
    {
        self.asn4
    }
}

/// One of the sixteen capability codes that are reserved for experiments.
#[derive(Clone, Copy, Debug, PartialEq, Eq, Structural)]
pub enum ExperimentalCapabilityCode {
    Experimental239,
    Experimental240,
    Experimental241,
    Experimental242,
    Experimental243,
    Experimental244,
    Experimental245,
    Experimental246,
    Experimental247,
    Experimental248,
    Experimental249,
    Experimental250,
    Experimental251,
    Experimental252,
    Experimental253,
    Experimental254,
}

impl ExperimentalCapabilityCode {
    /// The place of the code in the reserved range, from 0 to 15.
    pub open spec fn index(self) -> nat {
        match self {
            ExperimentalCapabilityCode::Experimental239 => 0,
            ExperimentalCapabilityCode::Experimental240 => 1,
            ExperimentalCapabilityCode::Experimental241 => 2,
            ExperimentalCapabilityCode::Experimental242 => 3,
            ExperimentalCapabilityCode::Experimental243 => 4,
            ExperimentalCapabilityCode::Experimental244 => 5,
            ExperimentalCapabilityCode::Experimental245 => 6,
            ExperimentalCapabilityCode::Experimental246 => 7,
            ExperimentalCapabilityCode::Experimental247 => 8,
            ExperimentalCapabilityCode::Experimental248 => 9,
            ExperimentalCapabilityCode::Experimental249 => 10,
            ExperimentalCapabilityCode::Experimental250 => 11,
            ExperimentalCapabilityCode::Experimental251 => 12,
            ExperimentalCapabilityCode::Experimental252 => 13,
            ExperimentalCapabilityCode::Experimental253 => 14,
            ExperimentalCapabilityCode::Experimental254 => 15,
        }
    }

    /// The byte that stands for this code on the wire: 239 for the first of
    /// the range, 254 for the last.
    pub open spec fn value(self) -> u8 {
        (239 + self.index()) as u8
    }

    /// The experimental code that `value` stands for, if it is one.
    pub open spec fn of(value: u8) -> Option<ExperimentalCapabilityCode> {
        if value == 239 {
            Some(ExperimentalCapabilityCode::Experimental239)
        }         else if value == 240 {
            Some(ExperimentalCapabilityCode::Experimental240)
        }         else if value == 241 {
            Some(ExperimentalCapabilityCode::Experimental241)
        }         else if value == 242 {
            Some(ExperimentalCapabilityCode::Experimental242)
        }         else if value == 243 {
            Some(ExperimentalCapabilityCode::Experimental243)
        }         else if value == 244 {
            Some(ExperimentalCapabilityCode::Experimental244)
        }         else if value == 245 {
            Some(ExperimentalCapabilityCode::Experimental245)
        }         else if value == 246 {
            Some(ExperimentalCapabilityCode::Experimental246)
        }         else if value == 247 {
            Some(ExperimentalCapabilityCode::Experimental247)
        }         else if value == 248 {
            Some(ExperimentalCapabilityCode::Experimental248)
        }         else if value == 249 {
            Some(ExperimentalCapabilityCode::Experimental249)
        }         else if value == 250 {
            Some(ExperimentalCapabilityCode::Experimental250)
        }         else if value == 251 {
            Some(ExperimentalCapabilityCode::Experimental251)
        }         else if value == 252 {
            Some(ExperimentalCapabilityCode::Experimental252)
        }         else if value == 253 {
            Some(ExperimentalCapabilityCode::Experimental253)
        }         else if value == 254 {
            Some(ExperimentalCapabilityCode::Experimental254)
        } else {
            None
        }
    }

    /// The bytes with an experimental code are 239 to 254, and each such
    /// byte is the byte of its code.
    pub proof fn lemma_of_round_trip(value: u8)
        ensures
            ExperimentalCapabilityCode::of(value) is Some <==> 239 <= value <= 254,
            ExperimentalCapabilityCode::of(value) matches Some(code) ==> code.value() == value
                && code.index() == value - 239,
    {
    }

    /// The byte that stands for this code on the wire.
    pub fn into_u8(self) -> (value: u8)
        ensures
            value == self.value(),
    {
        match self {
            ExperimentalCapabilityCode::Experimental239 => 239,
            ExperimentalCapabilityCode::Experimental240 => 240,
            ExperimentalCapabilityCode::Experimental241 => 241,
            ExperimentalCapabilityCode::Experimental242 => 242,
            ExperimentalCapabilityCode::Experimental243 => 243,
            ExperimentalCapabilityCode::Experimental244 => 244,
            ExperimentalCapabilityCode::Experimental245 => 245,
            ExperimentalCapabilityCode::Experimental246 => 246,
            ExperimentalCapabilityCode::Experimental247 => 247,
            ExperimentalCapabilityCode::Experimental248 => 248,
            ExperimentalCapabilityCode::Experimental249 => 249,
            ExperimentalCapabilityCode::Experimental250 => 250,
            ExperimentalCapabilityCode::Experimental251 => 251,
            ExperimentalCapabilityCode::Experimental252 => 252,
            ExperimentalCapabilityCode::Experimental253 => 253,
            ExperimentalCapabilityCode::Experimental254 => 254,
        }
    }
}

/// The mathematical content of an [`ExperimentalCapability`].
pub struct ExperimentalCapabilityView {
    pub code: ExperimentalCapabilityCode,
    pub value: Seq<u8>,
}

/// A capability with a code from the experimental range. Its value is kept
/// as it stands on the wire.
#[derive(Clone, Debug, PartialEq, Eq)]
pub struct ExperimentalCapability {
    code: ExperimentalCapabilityCode,
    value: Vec<u8>,
}

impl View for ExperimentalCapability {
    type V = ExperimentalCapabilityView;

    closed spec fn view(&self) -> ExperimentalCapabilityView {
        ExperimentalCapabilityView { code: self.code, value: self.value@ }
    }
}

impl ExperimentalCapability {
    /// The capability with the code `code` and the value `value`.
    pub fn new(code: ExperimentalCapabilityCode, value: Vec<u8>) -> (capability:
        ExperimentalCapability)
        ensures
            capability@ == (ExperimentalCapabilityView { code, value: value@ }),
    {
        ExperimentalCapability { code, value }
    }

    /// The code of the capability.
    pub fn code(&self) -> (code: ExperimentalCapabilityCode)
        ensures
            code == self@.code,
    {
        self.code
    }

    /// The value of the capability, as it stands on the wire.
    pub fn value(&self) -> (value: &Vec<u8>)
        ensures
            value@ == self@.value,
    {
        &self.value
    }
}

/// The mathematical content of an [`UnrecognizedCapability`].
pub struct UnrecognizedCapabilityView {
    pub code: u8,
    pub value: Seq<u8>,
}

/// A capability that this crate does not interpret: one whose code the
/// registry does not assign, or one that it assigns but whose value is kept
/// as it stands on the wire.
#[derive(Clone, Debug, PartialEq, Eq)]
pub struct UnrecognizedCapability {
    code: u8,
    value: Vec<u8>,
}

impl View for UnrecognizedCapability {
    type V = UnrecognizedCapabilityView;

    closed spec fn view(&self) -> UnrecognizedCapabilityView {
        UnrecognizedCapabilityView { code: self.code, value: self.value@ }
    }
}

impl UnrecognizedCapability {
    /// The capability with the code `code` and the value `value`.
    pub fn new(code: u8, value: Vec<u8>) -> (capability: UnrecognizedCapability)
        ensures
            capability@ == (UnrecognizedCapabilityView { code, value: value@ }),
    {
        UnrecognizedCapability { code, value }
    }

    /// The code byte of the capability.
    pub fn code(&self) -> (code: u8)
        ensures
            code == self@.code,
    {
        self.code
    }

    /// The value of the capability, as it stands on the wire.
    pub fn value(&self) -> (value: &Vec<u8>)
        ensures
            value@ == self@.value,
    {
        &self.value
    }
}

/// The mathematical content of a [`BGPCapability`].
pub enum BGPCapabilityView {
    RouteRefresh,
    EnhancedRouteRefresh,
    ExtendedMessage,
    FourOctetAS(u32),
    Experimental(ExperimentalCapabilityView),
    Unrecognized(UnrecognizedCapabilityView),
}

/// A capability of a BGP speaker.
///
/// `RouteRefresh`, `EnhancedRouteRefresh` and `ExtendedMessage` have no
/// value; `FourOctetAS` has one of four bytes.
#[derive(Clone, Debug, PartialEq, Eq)]
pub enum BGPCapability {
    RouteRefresh,
    EnhancedRouteRefresh,
    ExtendedMessage,
    FourOctetAS(FourOctetASCapability),
    Experimental(ExperimentalCapability),
    Unrecognized(UnrecognizedCapability),
}

impl View for BGPCapability {
    type V = BGPCapabilityView;

    open spec fn view(&self) -> BGPCapabilityView {
        match *self {
            BGPCapability::RouteRefresh => BGPCapabilityView::RouteRefresh,
            BGPCapability::EnhancedRouteRefresh => BGPCapabilityView::EnhancedRouteRefresh,
            BGPCapability::ExtendedMessage => BGPCapabilityView::ExtendedMessage,
            BGPCapability::FourOctetAS(capability) => BGPCapabilityView::FourOctetAS(capability@),
            BGPCapability::Experimental(capability) => BGPCapabilityView::Experimental(
                capability@,
            ),
            BGPCapability::Unrecognized(capability) => BGPCapabilityView::Unrecognized(
                capability@,
            ),
        }
    }
}

} // verus!
