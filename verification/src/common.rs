use vstd::prelude::*;

verus! {

/// An IP address, held as the number its octets spell, most significant
/// octet first.
#[derive(Clone, Copy, Debug, PartialEq, Eq, Structural)]
pub enum IpAddress {
    V4(u32),
    V6(u128),
}

impl IpAddress {
    /// The number of bits in an address of this family.
    pub open spec fn spec_bit_width(&self) -> u8 {
        match *self {
            IpAddress::V4(_) => 32,
            IpAddress::V6(_) => 128,
        }
    }

    /// The IPv4 address written `a.b.c.d`.
    pub fn v4(a: u8, b: u8, c: u8, d: u8) -> (address: IpAddress)
        ensures
            address == IpAddress::V4((a * 0x100_0000 + b * 0x1_0000 + c * 0x100 + d) as u32),
    {
        let high: u32 = a as u32 * 0x100_0000 + b as u32 * 0x1_0000;
        let low: u32 = c as u32 * 0x100 + d as u32;
        IpAddress::V4(high + low)
    }

    #[verifier::when_used_as_spec(spec_bit_width)]
    pub fn bit_width(&self) -> (bits: u8)
        ensures
            bits == self.spec_bit_width(),
    {
        match self {
            IpAddress::V4(_) => 32,
            IpAddress::V6(_) => 128,
        }
    }

    pub open spec fn spec_is_ipv4(&self) -> bool {
        *self is V4
    }

    #[verifier::when_used_as_spec(spec_is_ipv4)]
    pub fn is_ipv4(&self) -> (v4: bool)
        ensures
            v4 == self.spec_is_ipv4(),
    {
        match self {
            IpAddress::V4(_) => true,
            IpAddress::V6(_) => false,
        }
    }
}

/// One entry of a forwarding table: where it leads and how.
///
/// A route is a plain value. Any prefix length can be written down; only a
/// route whose prefix fits its destination's family ([`Route::is_valid`]) has
/// a native row.
#[derive(Clone, Copy, Debug, PartialEq, Eq)]
pub struct Route {
    pub destination: IpAddress,
    pub prefix: u8,
    pub gateway: Option<IpAddress>,
    pub if_index: Option<u32>,
    pub metric: Option<u32>,
}

impl Route {
    /// The prefix length does not exceed the width of the destination's
    /// address family.
    pub open spec fn spec_is_valid(&self) -> bool {
        self.prefix <= self.destination.bit_width()
    }

    /// A route to `destination/prefix` with no gateway, interface or metric.
    pub fn new(destination: IpAddress, prefix: u8) -> (route: Route)
        ensures
            route == (Route { destination, prefix, gateway: None, if_index: None, metric: None }),
    {
        Route { destination, prefix, gateway: None, if_index: None, metric: None }
    }

    pub fn with_gateway(self, gateway: IpAddress) -> (route: Route)
        ensures
            route == (Route { gateway: Some(gateway), ..self }),
    {
        Route { gateway: Some(gateway), ..self }
    }

    pub fn with_if_index(self, if_index: u32) -> (route: Route)
        ensures
            route == (Route { if_index: Some(if_index), ..self }),
    {
        Route { if_index: Some(if_index), ..self }
    }

    pub fn with_metric(self, metric: u32) -> (route: Route)
        ensures
            route == (Route { metric: Some(metric), ..self }),
    {
        Route { metric: Some(metric), ..self }
    }

    #[verifier::when_used_as_spec(spec_is_valid)]
    pub fn is_valid(&self) -> (valid: bool)
        ensures
            valid == self.spec_is_valid(),
    {
        self.prefix <= self.destination.bit_width()
    }

    /// `listed` stands for `self` in a routing table: the same destination,
    /// prefix and gateway, and the same interface where `self` names one.
    pub open spec fn matched_by(&self, listed: Route) -> bool {
        &&& listed.destination == self.destination
        &&& listed.prefix == self.prefix
        &&& listed.gateway == self.gateway
        &&& self.if_index is Some ==> listed.if_index == self.if_index
    }
}

/// An observed modification of the routing table.
#[derive(Clone, Copy, Debug, PartialEq, Eq)]
pub enum RouteChange {
    Add(Route),
    Delete(Route),
    Change(Route),
}

impl RouteChange {
    /// The route that was added, deleted or changed.
    pub fn route(&self) -> (route: Route)
        ensures
            route == match *self {
                RouteChange::Add(r) => r,
                RouteChange::Delete(r) => r,
                RouteChange::Change(r) => r,
            },
    {
        match self {
            RouteChange::Add(r) => *r,
            RouteChange::Delete(r) => *r,
            RouteChange::Change(r) => *r,
        }
    }
}

} // verus!
