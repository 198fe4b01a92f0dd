use route_manager::windows::ffi::{
    route_to_row, row_to_route, NativeAddress, NativeRow, AF_INET, AF_INET6, AF_UNSPEC,
};
use route_manager::{IpAddress, Route, RouteChange, RouteError};
use windows_sys::Win32::Networking::WinSock;

fn unspecified() -> NativeAddress {
    NativeAddress { family: AF_UNSPEC, v4: 0, v6: 0 }
}

#[test]
fn v4_spells_the_octets_most_significant_first() {
    assert_eq!(IpAddress::v4(192, 168, 2, 0), IpAddress::V4(0xC0A8_0200));
    assert_eq!(IpAddress::v4(0, 0, 0, 0), IpAddress::V4(0));
    assert_eq!(IpAddress::v4(255, 255, 255, 255), IpAddress::V4(u32::MAX));
    assert_eq!(IpAddress::v4(10, 0, 0, 1), IpAddress::V4(167_772_161));
}

#[test]
fn bit_width_follows_the_family() {
    assert_eq!(IpAddress::V4(1).bit_width(), 32);
    assert_eq!(IpAddress::V6(1).bit_width(), 128);
    assert!(IpAddress::V4(1).is_ipv4());
    assert!(!IpAddress::V6(1).is_ipv4());
}

#[test]
fn builders_set_one_field_each() {
    let base = Route::new(IpAddress::v4(192, 168, 2, 0), 24);
    assert_eq!(
        base,
        Route {
            destination: IpAddress::V4(0xC0A8_0200),
            prefix: 24,
            gateway: None,
            if_index: None,
            metric: None,
        }
    );
    let full = base
        .with_gateway(IpAddress::v4(192, 168, 2, 1))
        .with_if_index(7)
        .with_metric(25);
    assert_eq!(full.destination, base.destination);
    assert_eq!(full.prefix, 24);
    assert_eq!(full.gateway, Some(IpAddress::V4(0xC0A8_0201)));
    assert_eq!(full.if_index, Some(7));
    assert_eq!(full.metric, Some(25));
}

#[test]
fn validity_is_the_prefix_within_the_family_width() {
    assert!(Route::new(IpAddress::V4(0), 0).is_valid());
    assert!(Route::new(IpAddress::V4(0), 32).is_valid());
    assert!(!Route::new(IpAddress::V4(0), 33).is_valid());
    assert!(Route::new(IpAddress::V6(0), 33).is_valid());
    assert!(Route::new(IpAddress::V6(0), 128).is_valid());
    assert!(!Route::new(IpAddress::V6(0), 129).is_valid());
    assert!(!Route::new(IpAddress::V6(0), 255).is_valid());
}

#[test]
fn change_gives_its_route() {
    let route = Route::new(IpAddress::V4(9), 8);
    assert_eq!(RouteChange::Add(route).route(), route);
    assert_eq!(RouteChange::Delete(route).route(), route);
    assert_eq!(RouteChange::Change(route).route(), route);
}

#[test]
fn row_of_an_ipv4_route() {
    let route = Route::new(IpAddress::v4(192, 168, 2, 0), 24).with_if_index(1);
    assert_eq!(
        route_to_row(&route),
        Ok(NativeRow {
            destination: NativeAddress { family: AF_INET, v4: 0xC0A8_0200, v6: 0 },
            prefix_length: 24,
            next_hop: unspecified(),
            interface_index: 1,
            metric: 0,
        })
    );
}

#[test]
fn row_of_an_ipv6_route_with_gateway_and_metric() {
    let destination = 0x2001_0db8_0000_0000_0000_0000_0000_0000u128;
    let gateway = 0xfe80_0000_0000_0000_0000_0000_0000_0001u128;
    let route = Route::new(IpAddress::V6(destination), 32)
        .with_gateway(IpAddress::V6(gateway))
        .with_metric(100);
    assert_eq!(
        route_to_row(&route),
        Ok(NativeRow {
            destination: NativeAddress { family: AF_INET6, v4: 0, v6: destination },
            prefix_length: 32,
            next_hop: NativeAddress { family: AF_INET6, v4: 0, v6: gateway },
            interface_index: 0,
            metric: 100,
        })
    );
}

#[test]
fn a_prefix_beyond_the_family_has_no_row() {
    assert_eq!(
        route_to_row(&Route::new(IpAddress::v4(192, 168, 2, 0), 33)),
        Err(RouteError::Translation)
    );
    assert_eq!(
        route_to_row(&Route::new(IpAddress::V6(1), 129)),
        Err(RouteError::Translation)
    );
    assert!(route_to_row(&Route::new(IpAddress::v4(10, 0, 0, 0), 32)).is_ok());
    assert!(route_to_row(&Route::new(IpAddress::V6(1), 128)).is_ok());
}

#[test]
fn a_row_reads_as_a_route() {
    let row = NativeRow {
        destination: NativeAddress { family: AF_INET, v4: 0x0A00_0000, v6: 77 },
        prefix_length: 8,
        next_hop: NativeAddress { family: AF_INET, v4: 0x0A00_0001, v6: 0 },
        interface_index: 12,
        metric: 5,
    };
    assert_eq!(
        row_to_route(&row),
        Some(Route {
            destination: IpAddress::V4(0x0A00_0000),
            prefix: 8,
            gateway: Some(IpAddress::V4(0x0A00_0001)),
            if_index: Some(12),
            metric: Some(5),
        })
    );
}

#[test]
fn rows_that_stand_for_no_route() {
    let good = NativeRow {
        destination: NativeAddress { family: AF_INET6, v4: 0, v6: 1 },
        prefix_length: 128,
        next_hop: unspecified(),
        interface_index: 0,
        metric: 0,
    };
    assert!(row_to_route(&good).is_some());
    let unsupported = NativeRow {
        destination: NativeAddress { family: 17, v4: 1, v6: 1 },
        ..good
    };
    assert_eq!(row_to_route(&unsupported), None);
    let no_family = NativeRow { destination: unspecified(), ..good };
    assert_eq!(row_to_route(&no_family), None);
    let too_long = NativeRow { prefix_length: 129, ..good };
    assert_eq!(row_to_route(&too_long), None);
    let too_long_v4 = NativeRow {
        destination: NativeAddress { family: AF_INET, v4: 1, v6: 0 },
        prefix_length: 33,
        ..good
    };
    assert_eq!(row_to_route(&too_long_v4), None);
}

#[test]
fn a_next_hop_of_another_family_is_no_gateway() {
    let row = NativeRow {
        destination: NativeAddress { family: AF_INET, v4: 1, v6: 0 },
        prefix_length: 32,
        next_hop: NativeAddress { family: 17, v4: 5, v6: 5 },
        interface_index: 3,
        metric: 4,
    };
    assert_eq!(row_to_route(&row).unwrap().gateway, None);
}

#[test]
fn a_valid_route_is_read_back_from_its_row() {
    let routes = [
        Route::new(IpAddress::v4(192, 168, 2, 0), 24).with_if_index(1),
        Route::new(IpAddress::v4(0, 0, 0, 0), 0)
            .with_gateway(IpAddress::v4(10, 0, 0, 1))
            .with_if_index(4)
            .with_metric(10),
        Route::new(IpAddress::V6(0xfd00 << 112), 8).with_gateway(IpAddress::V6(1)),
        Route::new(IpAddress::V6(0), 0),
    ];
    for route in routes {
        let row = route_to_row(&route).unwrap();
        let read = row_to_route(&row).unwrap();
        assert_eq!(read.destination, route.destination);
        assert_eq!(read.prefix, route.prefix);
        assert_eq!(read.gateway, route.gateway);
        assert_eq!(read.if_index, Some(route.if_index.unwrap_or(0)));
        assert_eq!(read.metric, Some(route.metric.unwrap_or(0)));
    }
}

#[test]
fn address_families_are_the_systems() {
    assert_eq!(AF_UNSPEC, WinSock::AF_UNSPEC);
    assert_eq!(AF_INET, WinSock::AF_INET);
    assert_eq!(AF_INET6, WinSock::AF_INET6);
}
