use ram::api_models::{NodeInfo, RouteDefinition};
use ram::cross_node::{forwarded_route, local_device_path_of, node_api_url, routes_url, vban_address};
use ram::handlers::{proxy_target, ProxyTarget};
use ram::state::AppState;
use ram::subscription_client::SubscriptionClient;

fn node(addresses: Vec<&str>) -> NodeInfo {
    NodeInfo {
        id: "studio-b@10.0.0.7".to_string(),
        name: "StudioBravo".to_string(),
        addresses: addresses.into_iter().map(String::from).collect(),
        api_port: 8080,
        vban_port: 6980,
        online: true,
    }
}

#[test]
fn subscription_client_creation() {
    let client = SubscriptionClient::new(6980);
    assert_eq!(client.local_vban_port(), 6980);
}

#[test]
fn forwarded_route_points_back_here() {
    let local = node(vec![]);
    let route = RouteDefinition {
        source_node: "LOCAL".into(),
        source_device: "Mic".into(),
        source_channel: 3,
        destination_node: "studio-c".into(),
        destination_device: "Out".into(),
        destination_channel: 4,
        volume_bits: 0.5f32.to_bits(),
        muted: true,
    };
    let f = forwarded_route(&local, &route);
    assert_eq!(f.source_node, "studio-b@10.0.0.7");
    assert_eq!(f.destination_node, "LOCAL");
    assert_eq!(f.source_device, "Mic");
    assert_eq!(f.destination_channel, 4);
    assert!(f.muted);
    assert_eq!(f.volume_bits, 0.5f32.to_bits());
}

#[test]
fn api_urls_use_first_address() {
    let n = node(vec!["10.0.0.7", "192.168.1.2"]);
    assert_eq!(routes_url(&n).as_deref(), Some("http://10.0.0.7:8080/api/v1/routes"));
    assert_eq!(node_api_url(&n, "/x").as_deref(), Some("http://10.0.0.7:8080/x"));
    assert!(routes_url(&node(vec![])).is_none());
    assert_eq!(vban_address("10.0.0.1", 6980), "10.0.0.1:6980");
}

#[test]
fn subscription_request_shape() {
    let client = SubscriptionClient::new(6990);
    let (url, req) = client
        .request_with_suffix(&node(vec!["10.0.0.7"]), "mic", vec![1, 2], "10.0.0.1", 48000, "abcd1234")
        .unwrap();
    assert_eq!(url, "http://10.0.0.7:8080/api/v1/subscriptions");
    assert_eq!(req.stream_name, "AM_StudioBr_abcd1234");
    assert_eq!(req.destination_node, "10.0.0.1");
    assert_eq!(req.destination_addr, "10.0.0.1:6990");
    assert_eq!(req.source_channels, vec![1, 2]);

    let (_, req) = client
        .subscription_request(&node(vec!["10.0.0.7"]), "mic", vec![1], "10.0.0.1", 44100)
        .unwrap();
    assert!(req.stream_name.starts_with("AM_StudioBr_"));
    assert_eq!(req.stream_name.len(), "AM_StudioBr_".len() + 8);
    assert_eq!(req.sample_rate, 44100);

    let err = client.subscription_request(&node(vec![]), "mic", vec![1], "10.0.0.1", 44100).unwrap_err();
    assert_eq!(err, "No address for source node: StudioBravo");
}

#[test]
fn short_node_names_are_kept_whole() {
    let mut n = node(vec!["h"]);
    n.name = "B".into();
    let client = SubscriptionClient::new(1);
    let (_, req) = client.request_with_suffix(&n, "d", vec![], "ip", 1, "00000000").unwrap();
    assert_eq!(req.stream_name, "AM_B_00000000");
}

#[test]
fn device_paths_encode_the_identifier() {
    assert_eq!(local_device_path_of("devices", None, ""), "/api/v1/nodes/local/devices");
    assert_eq!(
        local_device_path_of("devices", Some("ALSA:out b/é~x"), "/attach"),
        "/api/v1/nodes/local/devices/ALSA%3Aout%20b%2F%C3%A9~x/attach"
    );
    assert_eq!(local_device_path_of("virtual-devices", Some("v_1.2-3"), ""), "/api/v1/nodes/local/virtual-devices/v_1.2-3");
}

#[test]
fn proxy_targets() {
    let mut state = AppState::default();
    state.upsert_remote_node(node(vec!["10.0.0.7", "10.0.0.8"]));
    assert!(matches!(proxy_target(&state, "local", "devices", None, ""), ProxyTarget::Local));
    match proxy_target(&state, "studio-b@10.0.0.7", "devices", Some("d 1"), "/detach") {
        ProxyTarget::Remote(url) => assert_eq!(url, "http://10.0.0.7:8080/api/v1/nodes/local/devices/d%201/detach"),
        other => panic!("unexpected {other:?}"),
    }
    assert!(matches!(proxy_target(&state, "nowhere", "devices", None, ""), ProxyTarget::Unreachable));
    let mut silent = node(vec![]);
    silent.id = "quiet@host".to_string();
    silent.name = "Quiet".to_string();
    state.upsert_remote_node(silent);
    assert!(matches!(proxy_target(&state, "quiet@host", "devices", None, ""), ProxyTarget::Unreachable));
}
