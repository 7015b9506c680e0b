use ram::api_error::Error as ApiError;
use ram::api_models::RouteDefinition;
use ram::handlers::{
    create_route, delete_route, get_device, get_node, get_route, remote_device_not_found,
    update_route,
};
use ram::state::AppState;

fn route(src_channel: u16, dst_channel: u16, volume: f32) -> RouteDefinition {
    RouteDefinition {
        source_node: "node-a".to_string(),
        source_device: "dev-1".to_string(),
        source_channel: src_channel,
        destination_node: "node-b".to_string(),
        destination_device: "dev-2".to_string(),
        destination_channel: dst_channel,
        volume_bits: volume.to_bits(),
        muted: false,
    }
}

fn not_found_text(e: ApiError) -> String {
    match e {
        ApiError::NotFound(s) => s,
        other => panic!("expected NotFound, got {other:?}"),
    }
}

#[test]
fn create_then_get_route() {
    let mut state = AppState::default();
    let (created, update) = create_route(&mut state, route(1, 1, 1.0)).unwrap();
    assert_eq!(created.id, "node-a:dev-1:1->node-b:dev-2:1");
    assert_eq!(update.action, "added");
    assert_eq!(update.route_id, created.id);
    let got = get_route(&state, &created.id).unwrap();
    assert_eq!(got.source_channel, 1);
}

#[test]
fn missing_route_is_not_found() {
    let state = AppState::default();
    assert_eq!(not_found_text(get_route(&state, "nope").unwrap_err()), "route: nope");
}

#[test]
fn update_route_with_same_identity_replaces_it() {
    let mut state = AppState::default();
    let (created, _) = create_route(&mut state, route(1, 1, 1.0)).unwrap();
    let (returned, update) = update_route(&mut state, &created.id, route(1, 1, 0.5)).unwrap();
    assert_eq!(f32::from_bits(returned.volume_bits), 0.5);
    assert_eq!(update.action, "modified");
    assert_eq!(update.route_id, created.id);
    assert_eq!(state.all_routes().len(), 1);
    assert_eq!(f32::from_bits(get_route(&state, &created.id).unwrap().volume_bits), 0.5);
}

#[test]
fn update_route_with_new_identity_moves_it() {
    let mut state = AppState::default();
    let (created, _) = create_route(&mut state, route(1, 1, 1.0)).unwrap();
    let (_, update) = update_route(&mut state, &created.id, route(2, 1, 1.0)).unwrap();
    assert_eq!(update.route_id, "node-a:dev-1:2->node-b:dev-2:1");
    assert!(get_route(&state, &created.id).is_err());
    assert!(get_route(&state, "node-a:dev-1:2->node-b:dev-2:1").is_ok());
    assert_eq!(state.all_routes().len(), 1);
}

#[test]
fn update_missing_route_changes_nothing() {
    let mut state = AppState::default();
    let e = update_route(&mut state, "gone", route(1, 1, 1.0)).unwrap_err();
    assert_eq!(not_found_text(e), "route: gone");
    assert!(state.all_routes().is_empty());
}

#[test]
fn delete_route_answers_and_removes() {
    let mut state = AppState::default();
    let (created, _) = create_route(&mut state, route(1, 1, 1.0)).unwrap();
    let (deleted, update) = delete_route(&mut state, &created.id).unwrap();
    assert_eq!(deleted.id, created.id);
    assert_eq!(update.action, "removed");
    assert!(state.all_routes().is_empty());
    assert_eq!(not_found_text(delete_route(&mut state, &created.id).unwrap_err()), format!("route: {}", created.id));
}

#[test]
fn nodes_and_devices_by_identifier() {
    let state = AppState::with_hostname("studio", "host1", 8080, 6980);
    let local_id = state.local_node().id.clone();
    assert_eq!(get_node(&state, &local_id).unwrap().id, local_id);
    assert_eq!(not_found_text(get_node(&state, "elsewhere").unwrap_err()), "node: elsewhere");
    assert_eq!(not_found_text(get_device(&state, "mic").unwrap_err()), "device: mic");
    assert_eq!(not_found_text(remote_device_not_found("n2", "mic")), "device: n2/mic");
}
