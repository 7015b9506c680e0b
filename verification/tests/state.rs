use ram::api_models::{DeviceInfo, DeviceStatus, DeviceType, NodeInfo, RouteDefinition};
use ram::state::{AppState, CrossNodeAction};

#[test]
fn state_app_state_new() {
    let state = AppState::new("TestNode", 8080, 6980);
    let local = state.local_node();
    assert_eq!(local.name, "TestNode");
    assert_eq!(local.api_port, 8080);
    assert_eq!(local.vban_port, 6980);
    assert!(local.online);
}

#[test]
fn state_app_state_default() {
    let state = AppState::default();
    let local = state.local_node();
    assert_eq!(local.name, "AudioMatrix");
}

#[test]
fn state_app_state_addresses() {
    let mut state = AppState::new("Test", 8080, 6980);
    assert!(state.local_node().addresses.is_empty());

    state.set_addresses(vec!["192.168.1.1".to_string()]);
    assert_eq!(state.local_node().addresses, vec!["192.168.1.1"]);
}

#[test]
fn state_app_state_remote_nodes() {
    let mut state = AppState::default();

    let remote = NodeInfo {
        id: "remote-1".to_string(),
        name: "Remote Node".to_string(),
        addresses: vec!["192.168.1.100".to_string()],
        api_port: 8080,
        vban_port: 6980,
        online: true,
    };

    state.upsert_remote_node(remote.clone());

    let all = state.all_nodes();
    assert_eq!(all.len(), 2);

    let found = state.get_node("remote-1");
    assert!(found.is_some());
    assert_eq!(found.unwrap().name, "Remote Node");

    let removed = state.remove_remote_node("remote-1");
    assert!(removed.is_some());
    assert_eq!(state.all_nodes().len(), 1);
}

#[test]
fn state_app_state_devices() {
    let mut state = AppState::default();

    let device = DeviceInfo {
        id: "device-1".to_string(),
        name: "Test Device".to_string(),
        display_name: None,
        device_type: DeviceType::Input,
        input_channels: 2,
        output_channels: 0,
        sample_rate: 48000,
        buffer_size: 256,
        is_virtual: false,
        status: DeviceStatus::Available,
        backend: None,
    };

    state.register_device(device);

    let all = state.all_devices();
    assert_eq!(all.len(), 1);

    let inputs = state.devices_by_type(DeviceType::Input);
    assert_eq!(inputs.len(), 1);

    let outputs = state.devices_by_type(DeviceType::Output);
    assert!(outputs.is_empty());

    let found = state.get_device("device-1");
    assert!(found.is_some());

    let removed = state.unregister_device("device-1");
    assert!(removed.is_some());
    assert!(state.all_devices().is_empty());
}

#[test]
fn state_app_state_routes() {
    let mut state = AppState::default();

    let route = RouteDefinition {
        source_node: "node-a".to_string(),
        source_device: "dev-1".to_string(),
        source_channel: 1,
        destination_node: "node-b".to_string(),
        destination_device: "dev-2".to_string(),
        destination_channel: 1,
        volume_bits: 1.0f32.to_bits(),
        muted: false,
    };

    let id = state.upsert_route(route).expect("Failed to upsert route");
    assert_eq!(id, "node-a:dev-1:1->node-b:dev-2:1");

    let all = state.all_routes();
    assert_eq!(all.len(), 1);

    let found = state.get_route(&id);
    assert!(found.is_some());

    let removed = state.remove_route(&id).expect("Failed to remove route");
    assert!(removed.is_some());
    assert!(state.all_routes().is_empty());
}

#[test]
fn tests_app_state_new() {
    let state = AppState::new("TestNode", 8080, 6980);
    let local = state.local_node();
    assert_eq!(local.name, "TestNode");
    assert_eq!(local.api_port, 8080);
    assert_eq!(local.vban_port, 6980);
    assert!(local.online);
}

#[test]
fn tests_app_state_default() {
    let state = AppState::default();
    let local = state.local_node();
    assert_eq!(local.name, "AudioMatrix");
}

#[test]
fn tests_app_state_addresses() {
    let mut state = AppState::new("Test", 8080, 6980);
    assert!(state.local_node().addresses.is_empty());

    state.set_addresses(vec!["192.168.1.1".to_string()]);
    assert_eq!(state.local_node().addresses, vec!["192.168.1.1"]);
}

#[test]
fn tests_app_state_remote_nodes() {
    let mut state = AppState::default();

    let remote = NodeInfo {
        id: "remote-1".to_string(),
        name: "Remote Node".to_string(),
        addresses: vec!["192.168.1.100".to_string()],
        api_port: 8080,
        vban_port: 6980,
        online: true,
    };

    state.upsert_remote_node(remote.clone());

    let all = state.all_nodes();
    assert_eq!(all.len(), 2);

    let found = state.get_node("remote-1");
    assert!(found.is_some());
    assert_eq!(found.unwrap().name, "Remote Node");

    let removed = state.remove_remote_node("remote-1");
    assert!(removed.is_some());
    assert_eq!(state.all_nodes().len(), 1);
}

#[test]
fn tests_app_state_devices() {
    let mut state = AppState::default();

    let device = DeviceInfo {
        id: "device-1".to_string(),
        name: "Test Device".to_string(),
        display_name: None,
        device_type: DeviceType::Input,
        input_channels: 2,
        output_channels: 0,
        sample_rate: 48000,
        buffer_size: 256,
        is_virtual: false,
        status: DeviceStatus::Available,
        backend: None,
    };

    state.register_device(device);

    let all = state.all_devices();
    assert_eq!(all.len(), 1);

    let inputs = state.devices_by_type(DeviceType::Input);
    assert_eq!(inputs.len(), 1);

    let outputs = state.devices_by_type(DeviceType::Output);
    assert!(outputs.is_empty());

    let found = state.get_device("device-1");
    assert!(found.is_some());

    let removed = state.unregister_device("device-1");
    assert!(removed.is_some());
    assert!(state.all_devices().is_empty());
}

#[test]
fn tests_app_state_routes() {
    let mut state = AppState::default();

    let route = RouteDefinition {
        source_node: "node-a".to_string(),
        source_device: "dev-1".to_string(),
        source_channel: 1,
        destination_node: "node-b".to_string(),
        destination_device: "dev-2".to_string(),
        destination_channel: 1,
        volume_bits: 1.0f32.to_bits(),
        muted: false,
    };

    let id = state.upsert_route(route).expect("Failed to upsert route");
    assert_eq!(id, "node-a:dev-1:1->node-b:dev-2:1");

    let all = state.all_routes();
    assert_eq!(all.len(), 1);

    let found = state.get_route(&id);
    assert!(found.is_some());

    let removed = state.remove_route(&id).expect("Failed to remove route");
    assert!(removed.is_some());
    assert!(state.all_routes().is_empty());
}

fn device(id: &str, status: DeviceStatus, is_virtual: bool) -> DeviceInfo {
    DeviceInfo {
        id: id.to_string(),
        name: format!("{id} name"),
        display_name: None,
        device_type: DeviceType::Duplex,
        input_channels: 2,
        output_channels: 4,
        sample_rate: 48000,
        buffer_size: 256,
        is_virtual,
        status,
        backend: None,
    }
}

fn node(id: &str, name: &str) -> NodeInfo {
    NodeInfo {
        id: id.to_string(),
        name: name.to_string(),
        addresses: vec!["10.0.0.2".to_string()],
        api_port: 8080,
        vban_port: 6980,
        online: true,
    }
}

fn route(sn: &str, dn: &str) -> RouteDefinition {
    RouteDefinition {
        source_node: sn.to_string(),
        source_device: "Mic".to_string(),
        source_channel: 1,
        destination_node: dn.to_string(),
        destination_device: "Out".to_string(),
        destination_channel: 2,
        volume_bits: 0.5f32.to_bits(),
        muted: false,
    }
}

#[test]
fn local_node_id_is_name_at_host() {
    let state = AppState::with_hostname("Studio", "box", 1, 2);
    assert_eq!(state.local_node().id, "Studio@box");
    let state = AppState::new("Studio", 1, 2);
    assert!(state.local_node().id.starts_with("Studio@"));
}

#[test]
fn attach_detach_lifecycle() {
    let mut state = AppState::default();
    state.register_device(device("d1", DeviceStatus::Available, false));

    let attached = state.attach_device("d1", Some("Desk".to_string())).unwrap();
    assert_eq!(attached.status, DeviceStatus::Attached);
    assert_eq!(attached.display_name.as_deref(), Some("Desk"));
    assert_eq!(state.attach_device("d1", None).unwrap_err(), "Device already attached: d1");

    let detached = state.detach_device("d1").unwrap();
    assert_eq!(detached.status, DeviceStatus::Detached);
    assert_eq!(detached.display_name.as_deref(), Some("Desk"));
    assert_eq!(state.detach_device("d1").unwrap_err(), "Device not attached: d1");

    // Re-attaching without a name keeps the display name.
    let again = state.attach_device("d1", None).unwrap();
    assert_eq!(again.display_name.as_deref(), Some("Desk"));
}

#[test]
fn attach_refusals() {
    let mut state = AppState::default();
    state.register_device(device("bad", DeviceStatus::Error, false));
    state.register_device(device("live", DeviceStatus::Active, false));
    assert_eq!(state.attach_device("nope", None).unwrap_err(), "Device not found: nope");
    assert_eq!(state.attach_device("bad", None).unwrap_err(), "Device in error state: bad");
    assert_eq!(state.attach_device("live", None).unwrap_err(), "Device already attached: live");
    assert_eq!(state.detach_device("bad").unwrap_err(), "Device in error state: bad");
    assert_eq!(state.detach_device("nope").unwrap_err(), "Device not found: nope");
    // An active device can be detached.
    assert_eq!(state.detach_device("live").unwrap().status, DeviceStatus::Detached);
    // A refused attach changes nothing.
    assert_eq!(state.get_device("bad").unwrap().status, DeviceStatus::Error);
}

#[test]
fn update_device_renames_and_clears() {
    let mut state = AppState::default();
    state.register_device(device("d1", DeviceStatus::Available, false));
    assert_eq!(state.update_device("d1", Some("Main".into())).unwrap().display_name.as_deref(), Some("Main"));
    assert_eq!(state.update_device("d1", None).unwrap().display_name.as_deref(), Some("Main"));
    assert_eq!(state.update_device("d1", Some(String::new())).unwrap().display_name, None);
    assert_eq!(state.update_device("x", None).unwrap_err(), "Device not found: x");
}

#[test]
fn channel_labels_through_state() {
    let mut state = AppState::default();
    state.register_device(device("d1", DeviceStatus::Available, false));

    let info = state.set_channel_label("d1", 2, "Vox".to_string()).unwrap();
    assert_eq!(info.number, 2);
    assert_eq!(info.label.as_deref(), Some("Vox"));

    let channels = state.get_device_channels("d1").unwrap();
    assert_eq!(channels.len(), 4);
    assert_eq!(channels[0].number, 1);
    assert_eq!(channels[0].label, None);
    assert_eq!(channels[1].label.as_deref(), Some("Vox"));

    assert_eq!(
        state.set_channel_label("d1", 1, "x".repeat(32)).unwrap_err(),
        "Label too long (max 31 characters)"
    );
    assert_eq!(state.set_channel_label("zz", 1, "a".into()).unwrap_err(), "Device not found: zz");

    let cleared = state.set_channel_label("d1", 2, String::new()).unwrap();
    assert_eq!(cleared.label, None);
    assert_eq!(state.get_device_channels("d1").unwrap()[1].label, None);
    assert!(state.get_device_channels("zz").is_none());
}

#[test]
fn bulk_channel_labels() {
    let mut state = AppState::default();
    state.register_device(device("d1", DeviceStatus::Available, false));
    let list = state
        .set_channel_labels("d1", vec![(1, "L".to_string()), (4, "R".to_string())])
        .unwrap();
    assert_eq!(list.len(), 4);
    assert_eq!(list[0].label.as_deref(), Some("L"));
    assert_eq!(list[3].label.as_deref(), Some("R"));

    // One label too long refuses the whole request.
    let err = state
        .set_channel_labels("d1", vec![(2, "ok".to_string()), (3, "y".repeat(40))])
        .unwrap_err();
    assert_eq!(err, "Label too long (max 31 characters)");
    assert_eq!(state.get_device_channels("d1").unwrap()[1].label, None);

    // An empty label removes one.
    let list = state.set_channel_labels("d1", vec![(1, String::new())]).unwrap();
    assert_eq!(list[0].label, None);
    assert_eq!(list[3].label.as_deref(), Some("R"));
}

#[test]
fn virtual_device_lifecycle() {
    let mut state = AppState::default();
    let created = state.create_virtual_device("VD".to_string(), 2, 0, 48000, 256).unwrap();
    assert!(created.id.starts_with("virtual_"));
    assert_eq!(created.id.len(), 40);
    assert_eq!(created.device_type, DeviceType::Input);
    assert_eq!(created.display_name.as_deref(), Some("VD"));
    assert_eq!(created.backend.as_deref(), Some("Virtual"));
    assert!(created.is_virtual);
    assert_eq!(state.list_virtual_devices().len(), 1);

    let updated = state
        .update_virtual_device(&created.id, Some("VD2".into()), None, Some(2), Some(96000), None)
        .unwrap();
    assert_eq!(updated.name, "VD2");
    assert_eq!(updated.device_type, DeviceType::Duplex);
    assert_eq!(updated.sample_rate, 96000);
    assert_eq!(updated.buffer_size, 256);

    let deleted = state.delete_virtual_device(&created.id).unwrap();
    assert_eq!(deleted.name, "VD2");
    assert!(state.get_device(&created.id).is_none());
    assert_eq!(
        state.delete_virtual_device(&created.id).unwrap_err(),
        format!("Device not found: {}", created.id)
    );
}

#[test]
fn virtual_operations_refuse_physical_devices() {
    let mut state = AppState::default();
    state.register_device(device("hw", DeviceStatus::Available, false));
    assert_eq!(
        state.update_virtual_device("hw", None, None, None, None, None).unwrap_err(),
        "Device is not a virtual device: hw"
    );
    assert_eq!(state.delete_virtual_device("hw").unwrap_err(), "Device is not a virtual device: hw");
    assert!(state.get_device("hw").is_some());
}

#[test]
fn virtual_device_with_id_and_output_type() {
    let mut state = AppState::default();
    let d = state.create_virtual_device_with_id("v1".to_string(), "Out".to_string(), 0, 0, 44100, 128);
    assert_eq!(d.device_type, DeviceType::Output);
    assert_eq!(state.get_device("v1").unwrap().sample_rate, 44100);
}

#[test]
fn remote_node_lookup() {
    let mut state = AppState::default();
    state.upsert_remote_node(node("studio-b@10.0.0.2", "Studio B"));
    assert_eq!(state.get_remote_node("studio-b@10.0.0.2").unwrap().name, "Studio B");
    assert_eq!(state.get_remote_node("Studio B").unwrap().id, "studio-b@10.0.0.2");
    assert_eq!(state.get_remote_node("studio-b").unwrap().name, "Studio B");
    assert_eq!(state.get_remote_node("Studio B@192.168.0.9").unwrap().name, "Studio B");
    assert!(state.get_remote_node("Other").is_none());

    // Upserting keeps one record per identifier.
    let mut changed = node("studio-b@10.0.0.2", "Studio B2");
    changed.online = false;
    state.upsert_remote_node(changed);
    assert_eq!(state.all_nodes().len(), 2);
    assert!(!state.get_node("studio-b@10.0.0.2").unwrap().online);
    assert!(state.remove_remote_node("nope").is_none());
}

#[test]
fn local_node_references() {
    let state = AppState::with_hostname("Main", "h", 1, 2);
    assert!(state.is_local_node("local"));
    assert!(state.is_local_node("LOCAL"));
    assert!(state.is_local_node("LoCaL"));
    assert!(state.is_local_node("Main"));
    assert!(state.is_local_node("Main@h"));
    assert!(!state.is_local_node("locale"));
    assert!(!state.is_local_node("Other"));
    let local = state.get_node("Main@h").unwrap();
    assert_eq!(local.name, "Main");
}

#[test]
fn cross_node_detection_and_actions() {
    let mut state = AppState::with_hostname("Main", "h", 1, 2);
    state.upsert_remote_node(node("b@x", "B"));

    assert!(!state.is_cross_node_route(&route("LOCAL", "Main")));
    assert!(state.is_cross_node_route(&route("B", "LOCAL")));
    // Routes name the local node exactly as LOCAL.
    assert!(state.is_cross_node_route(&route("local", "LOCAL")));

    assert!(matches!(state.cross_node_action(&route("LOCAL", "LOCAL")), CrossNodeAction::Local));
    match state.cross_node_action(&route("B", "LOCAL")) {
        CrossNodeAction::Subscribe(n) => assert_eq!(n.id, "b@x"),
        other => panic!("unexpected {other:?}"),
    }
    match state.cross_node_action(&route("LOCAL", "b@x")) {
        CrossNodeAction::Forward(n) => assert_eq!(n.name, "B"),
        other => panic!("unexpected {other:?}"),
    }
    assert!(matches!(state.cross_node_action(&route("Z", "LOCAL")), CrossNodeAction::SourceUnknown));
    assert!(matches!(state.cross_node_action(&route("LOCAL", "Z")), CrossNodeAction::DestinationUnknown));
    assert!(matches!(state.cross_node_action(&route("local", "LOCAL")), CrossNodeAction::Nothing));
}

#[test]
fn route_volume_and_mute() {
    let mut state = AppState::default();
    let id = state.upsert_route(route("LOCAL", "LOCAL")).unwrap();
    assert_eq!(id, "LOCAL:Mic:1->LOCAL:Out:2");
    state.set_route_volume(&id, 0.25f32.to_bits()).unwrap();
    state.set_route_muted(&id, true).unwrap();
    let r = state.get_route(&id).unwrap();
    assert_eq!(f32::from_bits(r.volume_bits), 0.25);
    assert!(r.muted);
    assert_eq!(state.set_route_volume("x", 0).unwrap_err(), "Route not found: x");
    assert_eq!(state.set_route_muted("x", true).unwrap_err(), "Route not found: x");

    // Upserting the same endpoints replaces the route.
    let mut again = route("LOCAL", "LOCAL");
    again.muted = false;
    state.upsert_route(again).unwrap();
    assert_eq!(state.all_routes().len(), 1);
    assert!(!state.get_route(&id).unwrap().muted);
    assert!(state.remove_route("missing").unwrap().is_none());
}
