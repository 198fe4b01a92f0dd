use route_manager::windows::ffi::{
    route_to_row, NativeAddress, NativeRow, AF_INET, AF_INET6, AF_UNSPEC,
};
use route_manager::windows::{status_result, RouteManager, RouteRequest, ERROR_SUCCESS};
use route_manager::{IpAddress, Route, RouteError};

fn row(family: u16, v4: u32, prefix_length: u8, interface_index: u32) -> NativeRow {
    NativeRow {
        destination: NativeAddress { family, v4, v6: v4 as u128 },
        prefix_length,
        next_hop: NativeAddress { family: AF_UNSPEC, v4: 0, v6: 0 },
        interface_index,
        metric: 0,
    }
}

#[test]
fn new_manager_is_ok() {
    assert!(RouteManager::new().is_ok());
}

#[test]
fn status_zero_is_success_and_any_other_is_the_error() {
    assert_eq!(ERROR_SUCCESS, 0);
    assert_eq!(status_result(0), Ok(()));
    assert_eq!(status_result(5), Err(RouteError::Os(5)));
    assert_eq!(status_result(1168), Err(RouteError::Os(1168)));
    assert_eq!(status_result(u32::MAX), Err(RouteError::Os(4_294_967_295)));
    let mut manager = RouteManager::new().unwrap();
    assert_eq!(manager.complete(0), Ok(()));
    assert_eq!(manager.complete(87), Err(RouteError::Os(87)));
}

#[test]
fn prefix_33_on_ipv4_is_a_translation_error() {
    let mut manager = RouteManager::new().unwrap();
    let route = Route::new(IpAddress::v4(192, 168, 2, 0), 33).with_if_index(1);
    assert_eq!(manager.add(&route), Err(RouteError::Translation));
    assert_eq!(manager.delete(&route), Err(RouteError::Translation));
    let longest = Route::new(IpAddress::v4(192, 168, 2, 0), 32);
    assert!(matches!(manager.add(&longest), Ok(RouteRequest::Create(_))));
    assert!(matches!(manager.delete(&longest), Ok(RouteRequest::Delete(_))));
}

#[test]
fn prefix_129_on_ipv6_is_a_translation_error() {
    let mut manager = RouteManager::new().unwrap();
    let route = Route::new(IpAddress::V6(1 << 100), 129);
    assert_eq!(manager.add(&route), Err(RouteError::Translation));
    assert_eq!(manager.delete(&route), Err(RouteError::Translation));
}

#[test]
fn add_asks_to_create_the_row_and_delete_to_delete_it() {
    let mut manager = RouteManager::new().unwrap();
    let route = Route::new(IpAddress::V6(0xfd00 << 112), 8)
        .with_gateway(IpAddress::V6(1))
        .with_if_index(9)
        .with_metric(3);
    let expected = NativeRow {
        destination: NativeAddress { family: AF_INET6, v4: 0, v6: 0xfd00 << 112 },
        prefix_length: 8,
        next_hop: NativeAddress { family: AF_INET6, v4: 0, v6: 1 },
        interface_index: 9,
        metric: 3,
    };
    assert_eq!(manager.add(&route), Ok(RouteRequest::Create(expected)));
    assert_eq!(manager.delete(&route), Ok(RouteRequest::Delete(expected)));
}

#[test]
fn list_reads_every_row_and_leaves_out_the_unreadable() {
    let mut manager = RouteManager::new().unwrap();
    let table = vec![
        row(AF_INET, 0x0A00_0000, 8, 1),
        row(17, 1, 8, 2),
        row(AF_INET6, 5, 64, 3),
        row(AF_INET, 0x0B00_0000, 40, 4),
        row(AF_UNSPEC, 0, 0, 5),
        row(AF_INET, 0x0C00_0000, 32, 6),
    ];
    let routes = manager.list(0, &table).unwrap();
    assert_eq!(
        routes,
        vec![
            Route {
                destination: IpAddress::V4(0x0A00_0000),
                prefix: 8,
                gateway: None,
                if_index: Some(1),
                metric: Some(0),
            },
            Route {
                destination: IpAddress::V6(5),
                prefix: 64,
                gateway: None,
                if_index: Some(3),
                metric: Some(0),
            },
            Route {
                destination: IpAddress::V4(0x0C00_0000),
                prefix: 32,
                gateway: None,
                if_index: Some(6),
                metric: Some(0),
            },
        ]
    );
}

#[test]
fn list_of_an_empty_table_is_empty() {
    let mut manager = RouteManager::new().unwrap();
    assert_eq!(manager.list(0, &Vec::new()), Ok(Vec::new()));
    assert_eq!(manager.list(0, &vec![row(99, 1, 1, 1)]), Ok(Vec::new()));
}

#[test]
fn a_failed_query_is_the_error_of_list() {
    let mut manager = RouteManager::new().unwrap();
    let table = vec![row(AF_INET, 1, 32, 1)];
    assert_eq!(manager.list(50, &table), Err(RouteError::Os(50)));
    assert_eq!(manager.list(2, &Vec::new()), Err(RouteError::Os(2)));
}

#[test]
fn add_then_delete_192_168_2_0_slash_24_on_interface_1() {
    let mut manager = RouteManager::new().unwrap();
    let route = Route::new(IpAddress::v4(192, 168, 2, 0), 24).with_if_index(1);
    let matches = |listed: &Route| {
        listed.destination == route.destination
            && listed.prefix == route.prefix
            && listed.gateway == route.gateway
            && listed.if_index == route.if_index
    };
    let mut table = vec![row(AF_INET, 0x0A00_0000, 8, 1), row(AF_INET, 0xC0A8_0200, 24, 2)];
    assert!(!manager.list(0, &table).unwrap().iter().any(matches));

    let created = match manager.add(&route) {
        Ok(RouteRequest::Create(created)) => created,
        other => panic!("add gave {:?}", other),
    };
    assert_eq!(created, route_to_row(&route).unwrap());
    table.push(created);
    assert_eq!(manager.complete(0), Ok(()));
    let listed = manager.list(0, &table).unwrap();
    assert_eq!(listed.len(), 3);
    assert!(listed.iter().any(matches));

    let deleted = match manager.delete(&route) {
        Ok(RouteRequest::Delete(deleted)) => deleted,
        other => panic!("delete gave {:?}", other),
    };
    assert_eq!(deleted, created);
    table.retain(|kept| *kept != deleted);
    assert_eq!(manager.complete(0), Ok(()));
    let listed = manager.list(0, &table).unwrap();
    assert_eq!(listed.len(), 2);
    assert!(!listed.iter().any(matches));
}
