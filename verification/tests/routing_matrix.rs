use ram::error::Error;
use ram::routing::{EndpointId, RoutingMatrix};

#[test]
fn routing_matrix_add_remove() {
    let mut matrix = RoutingMatrix::new();
    let src = EndpointId::new("host1", "Out", 1);
    let dst = EndpointId::local("In", 1);

    matrix.add_route(src.clone(), dst.clone(), 1024);
    assert_eq!(matrix.route_count(), 1);
    assert_eq!(matrix.routes_to(&dst).len(), 1);

    matrix.remove_route(&src, &dst).unwrap();
    assert_eq!(matrix.route_count(), 0);
}

#[test]
fn routing_matrix_multiple_sources() {
    let mut matrix = RoutingMatrix::new();
    let src1 = EndpointId::new("host1", "Out", 1);
    let src2 = EndpointId::new("host2", "Out", 1);
    let dst = EndpointId::local("In", 1);

    matrix.add_route(src1, dst.clone(), 1024);
    matrix.add_route(src2, dst.clone(), 1024);

    assert_eq!(matrix.routes_to(&dst).len(), 2);
}

#[test]
fn removing_a_missing_route_names_it() {
    let mut matrix = RoutingMatrix::default();
    let src = EndpointId::new("host1", "Out", 1);
    let dst = EndpointId::local("In", 2);
    match matrix.remove_route(&src, &dst) {
        Err(Error::RouteNotFound(text)) => assert_eq!(text, "host1:Out:1 -> LOCAL:In:2"),
        other => panic!("unexpected result: {other:?}"),
    }
    matrix.add_route(EndpointId::new("host2", "Out", 1), dst.clone(), 16);
    assert!(matrix.remove_route(&src, &dst).is_err());
    assert_eq!(matrix.route_count(), 1);
}

#[test]
fn routes_to_keeps_order_and_destinations_apart() {
    let mut matrix = RoutingMatrix::new();
    let a = EndpointId::new("host1", "Out", 1);
    let b = EndpointId::new("host2", "Out", 1);
    let d1 = EndpointId::local("In", 1);
    let d2 = EndpointId::local("In", 2);
    matrix.add_route(a.clone(), d1.clone(), 64);
    matrix.add_route(b.clone(), d1.clone(), 64);
    matrix.add_route(b.clone(), d2.clone(), 64);
    let into_d1 = matrix.routes_to(&d1);
    assert_eq!(into_d1.len(), 2);
    assert_eq!(into_d1[0].source, a);
    assert_eq!(into_d1[1].source, b);
    assert_eq!(into_d1[0].destination, d1);
    assert_eq!(matrix.routes_to(&d2).len(), 1);
    assert_eq!(matrix.route_count(), 3);
    assert!(matrix.routes_to(&EndpointId::local("In", 9)).is_empty());
}

#[test]
fn removing_a_source_takes_all_its_routes_to_that_destination() {
    let mut matrix = RoutingMatrix::new();
    let a = EndpointId::new("host1", "Out", 1);
    let b = EndpointId::new("host2", "Out", 1);
    let d = EndpointId::local("In", 1);
    matrix.add_route(a.clone(), d.clone(), 64);
    matrix.add_route(b.clone(), d.clone(), 64);
    matrix.add_route(a.clone(), d.clone(), 64);
    assert_eq!(matrix.route_count(), 3);
    matrix.remove_route(&a, &d).unwrap();
    let left = matrix.routes_to(&d);
    assert_eq!(left.len(), 1);
    assert_eq!(left[0].source, b);
    matrix.remove_route(&b, &d).unwrap();
    assert_eq!(matrix.route_count(), 0);
    assert!(matrix.remove_route(&b, &d).is_err());
}

#[test]
fn route_buffer_starts_empty_and_rounds_up() {
    let mut matrix = RoutingMatrix::new();
    let d = EndpointId::local("In", 1);
    matrix.add_route(EndpointId::new("h", "Out", 1), d.clone(), 100);
    let routes = matrix.routes_to(&d);
    assert_eq!(routes[0].buffer().available(), 0);
    assert_eq!(routes[0].buffer().free(), 128);
    assert!(!routes[0].volume.is_muted());
}
