use std::cell::RefCell;

use ram::api_models::RouteDefinition;
use ram::connection::ConnectionId;
use ram::route_controller::{carry_out, AudioDiagnostics, ControllerCommand, DeviceDiagnostic, RouteController, RouteError};
use ram::api_error::Error as ApiError;
use ram::handlers::{create_route_with, delete_route_with, update_route_with};
use ram::state::{gain_commands, mute_commands, remove_commands, route_commands, AppState};

// A stand-in for the audio processor that records what it is asked and can
// be told to refuse gains.
struct MockRouteController {
    node: String,
    calls: RefCell<Vec<String>>,
    refuse_gain: bool,
}

impl MockRouteController {
    fn new() -> Self {
        Self { node: "test-node".to_string(), calls: RefCell::new(Vec::new()), refuse_gain: false }
    }

    fn log(&self, what: &str, conn_id: &ConnectionId) {
        self.calls.borrow_mut().push(format!("{what} {}", conn_id.to_string()));
    }
}

impl RouteController for MockRouteController {
    fn add_route(&self, conn_id: ConnectionId) -> Result<usize, RouteError> {
        self.log("add", &conn_id);
        Ok(0)
    }

    fn remove_route(&self, conn_id: &ConnectionId) -> Result<(), RouteError> {
        self.log("remove", conn_id);
        Ok(())
    }

    fn set_route_gain(&self, conn_id: &ConnectionId, _gain_bits: u32) -> Result<(), RouteError> {
        self.log("gain", conn_id);
        if self.refuse_gain {
            Err(RouteError::NotFound(conn_id.to_string()))
        } else {
            Ok(())
        }
    }

    fn set_route_muted(&self, conn_id: &ConnectionId, _muted: bool) -> Result<(), RouteError> {
        self.log("mute", conn_id);
        Ok(())
    }

    fn has_route(&self, _conn_id: &ConnectionId) -> bool {
        false
    }

    fn node_name(&self) -> &str {
        &self.node
    }

    fn stop_vban_sender(&self, _subscription_id: u64) -> Result<(), RouteError> {
        Ok(())
    }

    fn ensure_input_stream(&self, _device_id: &str, channels: &[u16]) -> Result<Vec<usize>, RouteError> {
        Ok((0..channels.len()).collect())
    }

    fn register_vban_stream_buffers(&self, _stream_name: &str, _buffer_indices: Vec<usize>) {}

    fn unregister_vban_stream(&self, _stream_name: &str) {}

    fn allocate_receive_buffers(&self, _dest_device: &str, channels: &[u16]) -> Result<Vec<usize>, RouteError> {
        Ok((0..channels.len()).collect())
    }

    fn ensure_output_stream(&self, _device_id: &str) -> Result<(), RouteError> {
        Ok(())
    }

    fn audio_diagnostics(&self) -> AudioDiagnostics {
        AudioDiagnostics { hosts: vec!["MockHost".to_string()], input_devices: vec![], output_devices: vec![] }
    }

    fn diagnose_device(&self, device_id: &str) -> DeviceDiagnostic {
        DeviceDiagnostic {
            device_id: device_id.to_string(),
            found: false,
            input_stream_result: None,
            output_stream_result: None,
            error: Some("Mock controller - no real devices".to_string()),
        }
    }
}

fn route(sn: &str, dn: &str) -> RouteDefinition {
    RouteDefinition {
        source_node: sn.to_string(),
        source_device: "Mic".to_string(),
        source_channel: 1,
        destination_node: dn.to_string(),
        destination_device: "Out".to_string(),
        destination_channel: 2,
        volume_bits: 0.5f32.to_bits(),
        muted: false,
    }
}

#[test]
fn mock_controller_works() {
    let controller = MockRouteController::new();
    let conn_id = ConnectionId::new("LOCAL", "dev", 1, "LOCAL", "out", 1);

    assert!(controller.add_route(conn_id.clone()).is_ok());
    assert!(!controller.has_route(&conn_id));
}

#[test]
fn local_route_is_carried_out_on_the_processor() {
    let mut state = AppState::default();
    let controller = MockRouteController::new();
    let id = state.upsert_route_with(&controller, route("LOCAL", "LOCAL")).unwrap();
    assert_eq!(id, "LOCAL:Mic:1->LOCAL:Out:2");
    assert_eq!(
        *controller.calls.borrow(),
        vec![
            "add LOCAL:Mic:1->LOCAL:Out:2".to_string(),
            "gain LOCAL:Mic:1->LOCAL:Out:2".to_string(),
            "mute LOCAL:Mic:1->LOCAL:Out:2".to_string(),
        ]
    );
    assert!(state.get_route(&id).is_some());

    state.set_route_muted_with(&controller, &id, true).unwrap();
    assert!(state.get_route(&id).unwrap().muted);
    let removed = state.remove_route_with(&controller, &id).unwrap();
    assert!(removed.is_some());
    assert_eq!(controller.calls.borrow().last().unwrap(), "remove LOCAL:Mic:1->LOCAL:Out:2");
    assert!(state.get_route(&id).is_none());
}

#[test]
fn refused_gain_leaves_the_routes() {
    let mut state = AppState::default();
    let mut controller = MockRouteController::new();
    controller.refuse_gain = true;
    let err = state.upsert_route_with(&controller, route("LOCAL", "LOCAL")).unwrap_err();
    assert_eq!(err, "route not found: LOCAL:Mic:1->LOCAL:Out:2");
    assert!(state.all_routes().is_empty());

    controller.refuse_gain = false;
    let id = state.upsert_route_with(&controller, route("LOCAL", "LOCAL")).unwrap();
    controller.refuse_gain = true;
    assert!(state.set_route_volume_with(&controller, &id, 1.0f32.to_bits()).is_err());
    assert_eq!(state.get_route(&id).unwrap().volume_bits, 0.5f32.to_bits());
    assert_eq!(
        state.set_route_volume_with(&controller, "nope", 0).unwrap_err(),
        "Route not found: nope"
    );
}

#[test]
fn cross_node_route_is_not_handed_to_the_processor() {
    let mut state = AppState::default();
    let controller = MockRouteController::new();
    state.upsert_route_with(&controller, route("other-node", "LOCAL")).unwrap();
    assert!(controller.calls.borrow().is_empty());
    assert_eq!(state.all_routes().len(), 1);
}

#[test]
fn route_handlers_with_a_processor() {
    let mut state = AppState::default();
    let mut controller = MockRouteController::new();
    let (created, update) = create_route_with(&mut state, &controller, route("LOCAL", "LOCAL")).unwrap();
    assert_eq!(created.id, "LOCAL:Mic:1->LOCAL:Out:2");
    assert_eq!(update.action, "added");
    let mut moved = route("LOCAL", "LOCAL");
    moved.destination_channel = 3;
    let (stored, update) = update_route_with(&mut state, &controller, &created.id, moved).unwrap();
    assert_eq!(stored.destination_channel, 3);
    assert_eq!(update.route_id, "LOCAL:Mic:1->LOCAL:Out:3");
    assert!(state.get_route(&created.id).is_none());
    assert_eq!(controller.calls.borrow().last().unwrap(), "remove LOCAL:Mic:1->LOCAL:Out:2");
    controller.refuse_gain = true;
    match create_route_with(&mut state, &controller, route("LOCAL", "LOCAL")) {
        Err(ApiError::BadRequest(m)) => assert_eq!(m, "route not found: LOCAL:Mic:1->LOCAL:Out:2"),
        _ => panic!("expected a refusal"),
    }
    let (deleted, _) = delete_route_with(&mut state, &controller, "LOCAL:Mic:1->LOCAL:Out:3").unwrap();
    assert_eq!(deleted.id, "LOCAL:Mic:1->LOCAL:Out:3");
    assert!(state.all_routes().is_empty());
    match delete_route_with(&mut state, &controller, "nope") {
        Err(ApiError::NotFound(m)) => assert_eq!(m, "route: nope"),
        _ => panic!("expected not found"),
    }
}

#[test]
fn route_plans_name_the_connection_and_values() {
    let mut r = route("LOCAL", "LOCAL");
    r.muted = true;
    let conn = ConnectionId::new("LOCAL", "Mic", 1, "LOCAL", "Out", 2);
    let cmds = route_commands(&r, false);
    assert_eq!(cmds.len(), 3);
    assert!(matches!(&cmds[0], ControllerCommand::Add(c) if *c == conn));
    assert!(matches!(&cmds[1], ControllerCommand::SetGain(c, g) if *c == conn && *g == 0.5f32.to_bits()));
    assert!(matches!(&cmds[2], ControllerCommand::SetMuted(c, true) if *c == conn));
    let cmds = route_commands(&r, true);
    assert_eq!(cmds.len(), 2);
    assert!(matches!(&cmds[0], ControllerCommand::SetGain(..)));
    assert!(matches!(&remove_commands(&r)[..], [ControllerCommand::Remove(c)] if *c == conn));
    assert!(matches!(&gain_commands(&r, 7)[..], [ControllerCommand::SetGain(_, 7)]));
    assert!(matches!(&mute_commands(&r, false)[..], [ControllerCommand::SetMuted(_, false)]));
}

#[test]
fn carry_out_stops_at_the_first_refusal() {
    let mut controller = MockRouteController::new();
    controller.refuse_gain = true;
    let r = route("LOCAL", "LOCAL");
    let (asked, refusal) = carry_out(&controller, &route_commands(&r, false));
    assert_eq!(asked, 2);
    assert!(refusal.is_some());
    assert_eq!(controller.calls.borrow().len(), 2);
    controller.refuse_gain = false;
    let (asked, refusal) = carry_out(&controller, &route_commands(&r, true));
    assert_eq!(asked, 2);
    assert!(refusal.is_none());
}
