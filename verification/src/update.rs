//! The parts of a BGP UPDATE message.

use crate::error::views;
use ipnet::Ipv4Net;
use vstd::prelude::*;

verus! {

/// `ipnet::Ipv4Net`, an IPv4 network: an address and a prefix length in bits.
/// Its contents are not visible to the proofs of this crate.
#[verifier::external_type_specification]
#[verifier::external_body]
pub struct ExIpv4Net(Ipv4Net);

/// `Clone::clone` of `ipnet::Ipv4Net`. ipnet derives it beside `Copy`, so the
/// clone is the network itself.
pub assume_specification[ <Ipv4Net as Clone>::clone ](net: &Ipv4Net) -> (cloned: Ipv4Net)
    ensures
        cloned == *net,
;

/// A prefix that is no longer reachable.
#[derive(Clone, Debug, PartialEq, Eq)]
pub struct WithdrawRoute {
    prefix: Ipv4Net,
}

impl View for WithdrawRoute {
    type V = Ipv4Net;

    closed spec fn view(&self) -> Ipv4Net {
        self.prefix
    }
}

impl WithdrawRoute {
    /// The withdrawal of `prefix`.
    pub fn new(prefix: Ipv4Net) -> (route: WithdrawRoute)
        ensures
            route@ == prefix,
    {
        WithdrawRoute { prefix }
    }

    /// The prefix that is withdrawn.
    pub fn prefix(&self) -> (prefix: &Ipv4Net)
        ensures
            *prefix == self@,
    {
        &self.prefix
    }
}

/// The prefixes that a message announces as reachable, in wire order.
#[derive(Clone, Debug, PartialEq, Eq)]
pub struct NetworkLayerReachabilityInformation {
    networks: Vec<Ipv4Net>,
}

impl View for NetworkLayerReachabilityInformation {
    type V = Seq<Ipv4Net>;

    closed spec fn view(&self) -> Seq<Ipv4Net> {
        self.networks@
    }
}

impl NetworkLayerReachabilityInformation {
    /// The announcement of `networks`.
    pub fn new(networks: Vec<Ipv4Net>) -> (nlri: NetworkLayerReachabilityInformation)
        ensures
            nlri@ == networks@,
    {
        NetworkLayerReachabilityInformation { networks }
    }

    /// The prefixes that are announced, in wire order.
    pub fn networks(&self) -> (networks: &Vec<Ipv4Net>)
        ensures
            networks@ == self@,
    {
        &self.networks
    }
}

/// The mathematical content of a [`BGPUpdateMessage`].
pub struct BGPUpdateMessageView<A> {
    pub withdrawn_routes: Seq<Ipv4Net>,
    pub path_attributes: Seq<A>,
    pub nlri: Seq<Seq<Ipv4Net>>,
}

/// A BGP UPDATE message: the routes it withdraws, the path attributes of the
/// routes it announces, and the prefixes it announces. Each sequence keeps
/// the order of the wire, and nothing is removed from it.
///
/// `A` is the type of a decoded path attribute.
#[derive(Clone, Debug, PartialEq, Eq)]
pub struct BGPUpdateMessage<A> {
    withdrawn_routes: Vec<WithdrawRoute>,
    path_attributes: Vec<A>,
    nlri: Vec<NetworkLayerReachabilityInformation>,
}

impl<A> View for BGPUpdateMessage<A> {
    type V = BGPUpdateMessageView<A>;

    closed spec fn view(&self) -> BGPUpdateMessageView<A> {
        BGPUpdateMessageView {
            withdrawn_routes: views(self.withdrawn_routes@),
            path_attributes: self.path_attributes@,
            nlri: views(self.nlri@),
        }
    }
}

impl<A> BGPUpdateMessage<A> {
    /// The message with these parts.
    pub fn new(
        withdrawn_routes: Vec<WithdrawRoute>,
        path_attributes: Vec<A>,
        nlri: Vec<NetworkLayerReachabilityInformation>,
    ) -> (message: BGPUpdateMessage<A>)
        ensures
            message@ == (BGPUpdateMessageView {
                withdrawn_routes: views(withdrawn_routes@),
                path_attributes: path_attributes@,
                nlri: views(nlri@),
            }),
    {
        BGPUpdateMessage { withdrawn_routes, path_attributes, nlri }
    }

    /// The routes that the message withdraws, in wire order.
    pub fn withdraw_routes(&self) -> (routes: &Vec<WithdrawRoute>)
        ensures
            views(routes@) == self@.withdrawn_routes,
    {
        &self.withdrawn_routes
    }

    /// The path attributes of the announced routes, in wire order.
    pub fn path_attributes(&self) -> (attributes: &Vec<A>)
        ensures
            attributes@ == self@.path_attributes,
    {
        &self.path_attributes
    }

    /// The reachability information: no entry when the message announces
    /// nothing, else one entry with all the prefixes it announces.
    pub fn nlri(&self) -> (nlri: &Vec<NetworkLayerReachabilityInformation>)
        ensures
            views(nlri@) == self@.nlri,
    {
        &self.nlri
    }
}

} // verus!
