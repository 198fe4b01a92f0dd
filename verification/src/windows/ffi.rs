//! The native forwarding-table row, as plain values, and its translation to
//! and from a [`Route`].

use crate::common::{IpAddress, Route};
use crate::error::RouteError;
use vstd::prelude::*;

verus! {

/// Address family of a socket address that holds no address.
pub const AF_UNSPEC: u16 = 0;

/// Address family of an IPv4 socket address.
pub const AF_INET: u16 = 2;

/// Address family of an IPv6 socket address.
pub const AF_INET6: u16 = 23;

/// A native socket address: the family tag and both members it can hold.
/// Only the member that `family` selects is meaningful.
#[derive(Clone, Copy, Debug, PartialEq, Eq)]
pub struct NativeAddress {
    pub family: u16,
    pub v4: u32,
    pub v6: u128,
}

/// The fields of a native forwarding-table row that a [`Route`] is made of.
#[derive(Clone, Copy, Debug, PartialEq, Eq)]
pub struct NativeRow {
    pub destination: NativeAddress,
    pub prefix_length: u8,
    pub next_hop: NativeAddress,
    pub interface_index: u32,
    pub metric: u32,
}

/// The native form of an address: its family, the address in that family's
/// member, the other member zero.
pub open spec fn native_address(address: IpAddress) -> NativeAddress {
    match address {
        IpAddress::V4(a) => NativeAddress { family: AF_INET, v4: a, v6: 0 },
        IpAddress::V6(a) => NativeAddress { family: AF_INET6, v4: 0, v6: a },
    }
}

/// The native form of a gateway; no gateway is the zeroed address of no
/// family.
pub open spec fn native_next_hop(gateway: Option<IpAddress>) -> NativeAddress {
    match gateway {
        Some(address) => native_address(address),
        None => NativeAddress { family: AF_UNSPEC, v4: 0, v6: 0 },
    }
}

/// The native row of a route. An absent interface or metric is written as
/// zero. Meaningful for valid routes only.
pub open spec fn row_of(route: Route) -> NativeRow {
    NativeRow {
        destination: native_address(route.destination),
        prefix_length: route.prefix,
        next_hop: native_next_hop(route.gateway),
        interface_index: match route.if_index {
            Some(index) => index,
            None => 0,
        },
        metric: match route.metric {
            Some(metric) => metric,
            None => 0,
        },
    }
}

/// The address that a native socket address holds, if its family is IPv4 or
/// IPv6.
pub open spec fn address_of(native: NativeAddress) -> Option<IpAddress> {
    if native.family == AF_INET {
        Some(IpAddress::V4(native.v4))
    } else if native.family == AF_INET6 {
        Some(IpAddress::V6(native.v6))
    } else {
        None
    }
}

/// The route that a native row stands for. There is none where the
/// destination's family is neither IPv4 nor IPv6, or the prefix is longer than
/// that family's addresses. A next hop of any other family is no gateway.
pub open spec fn route_of(row: NativeRow) -> Option<Route> {
    match address_of(row.destination) {
        None => None,
        Some(destination) => if row.prefix_length <= destination.bit_width() {
            Some(
                Route {
                    destination,
                    prefix: row.prefix_length,
                    gateway: address_of(row.next_hop),
                    if_index: Some(row.interface_index),
                    metric: Some(row.metric),
                },
            )
        } else {
            None
        },
    }
}

fn address_to_native(address: &IpAddress) -> (native: NativeAddress)
    ensures
        native == native_address(*address),
{
    match address {
        IpAddress::V4(a) => NativeAddress { family: AF_INET, v4: *a, v6: 0 },
        IpAddress::V6(a) => NativeAddress { family: AF_INET6, v4: 0, v6: *a },
    }
}

fn native_to_address(native: &NativeAddress) -> (address: Option<IpAddress>)
    ensures
        address == address_of(*native),
{
    if native.family == AF_INET {
        Some(IpAddress::V4(native.v4))
    } else if native.family == AF_INET6 {
        Some(IpAddress::V6(native.v6))
    } else {
        None
    }
}

/// Writes a route as a native row. Fails with [`RouteError::Translation`]
/// exactly when the prefix is longer than the destination's family allows.
pub fn route_to_row(route: &Route) -> (row: Result<NativeRow, RouteError>)
    ensures
        route.is_valid() ==> row == Ok::<NativeRow, RouteError>(row_of(*route)),
        !route.is_valid() ==> row == Err::<NativeRow, RouteError>(RouteError::Translation),
{
    if !route.is_valid() {
        return Err(RouteError::Translation);
    }
    let next_hop = match &route.gateway {
        Some(gateway) => address_to_native(gateway),
        None => NativeAddress { family: AF_UNSPEC, v4: 0, v6: 0 },
    };
    let interface_index: u32 = match route.if_index {
        Some(index) => index,
        None => 0,
    };
    let metric: u32 = match route.metric {
        Some(metric) => metric,
        None => 0,
    };
    Ok(
        NativeRow {
            destination: address_to_native(&route.destination),
            prefix_length: route.prefix,
            next_hop,
            interface_index,
            metric,
        },
    )
}

/// Reads a native row as a route, or nothing where the row stands for none.
pub fn row_to_route(row: &NativeRow) -> (route: Option<Route>)
    ensures
        route == route_of(*row),
{
    match native_to_address(&row.destination) {
        None => None,
        Some(destination) => {
            if row.prefix_length <= destination.bit_width() {
                Some(
                    Route {
                        destination,
                        prefix: row.prefix_length,
                        gateway: native_to_address(&row.next_hop),
                        if_index: Some(row.interface_index),
                        metric: Some(row.metric),
                    },
                )
            } else {
                None
            }
        },
    }
}

/// A valid route is read back from its own row: the same destination, prefix
/// and gateway, and the interface and metric it named, zero standing for one
/// it did not name.
pub proof fn lemma_row_round_trip(route: Route)
    requires
        route.is_valid(),
    ensures
        route_of(row_of(route)) == Some(
            Route {
                if_index: Some(row_of(route).interface_index),
                metric: Some(row_of(route).metric),
                ..route
            },
        ),
        route_of(row_of(route)) matches Some(listed) && route.matched_by(listed),
{
}

} // verus!
