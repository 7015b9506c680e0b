use ram::api_models::{
    AttachDeviceRequest, CreateVirtualDeviceRequest, DeviceInfo, DeviceStatus, DeviceType,
    UpdateVirtualDeviceRequest,
};
use ram::api_error::Error as ApiError;
use ram::handlers::{
    bulk_update_channel_labels, get_device_channels, list_virtual_devices, update_channel_label, update_device,
    attach_device, create_virtual_device, delete_virtual_device, detach_device, is_supported_rate,
    remote_node_not_found, subscription_step, unsupported_rate_message, update_virtual_device,
    SubscriptionAction, SubscriptionEvent, SubscriptionStage,
};
use ram::state::AppState;
use ram::subscription::{SubscribeAck, SubscribeResult};

fn request(rate: u32, inputs: u16, outputs: u16) -> CreateVirtualDeviceRequest {
    CreateVirtualDeviceRequest {
        name: "VD".to_string(),
        input_channels: inputs,
        output_channels: outputs,
        sample_rate: rate,
        buffer_size: 256,
    }
}

#[test]
fn supported_rates() {
    assert!(is_supported_rate(44100));
    assert!(is_supported_rate(48000));
    assert!(is_supported_rate(96000));
    assert!(!is_supported_rate(22050));
    assert_eq!(
        unsupported_rate_message(22050),
        "Unsupported sample rate: 22050. Supported: [44100, 48000, 96000]"
    );
}

#[test]
fn create_virtual_device_checks_request() {
    let mut state = AppState::default();
    let r = create_virtual_device(&mut state, request(22050, 2, 2));
    assert!(!r.success);
    assert_eq!(
        r.error.as_deref(),
        Some("Unsupported sample rate: 22050. Supported: [44100, 48000, 96000]")
    );
    let r = create_virtual_device(&mut state, request(48000, 0, 0));
    assert_eq!(r.error.as_deref(), Some("At least one of input_channels or output_channels must be > 0"));
    let r = create_virtual_device(&mut state, request(48000, 257, 2));
    assert_eq!(r.error.as_deref(), Some("Channel count cannot exceed 256"));
    assert!(state.all_devices().is_empty());

    let r = create_virtual_device(&mut state, request(96000, 256, 0));
    assert!(r.success);
    let d = r.device.unwrap();
    assert_eq!(d.device_type, DeviceType::Input);
    assert_eq!(state.all_devices().len(), 1);
}

#[test]
fn update_and_delete_virtual_device_answers() {
    let mut state = AppState::default();
    let d = create_virtual_device(&mut state, request(48000, 2, 2)).device.unwrap();
    let bad = UpdateVirtualDeviceRequest {
        name: None,
        input_channels: None,
        output_channels: None,
        sample_rate: Some(11025),
        buffer_size: None,
    };
    let r = update_virtual_device(&mut state, &d.id, bad);
    assert!(!r.success);
    assert_eq!(
        r.error.as_deref(),
        Some("Unsupported sample rate: 11025. Supported: [44100, 48000, 96000]")
    );
    let good = UpdateVirtualDeviceRequest {
        name: Some("Renamed".into()),
        input_channels: Some(0),
        output_channels: None,
        sample_rate: Some(44100),
        buffer_size: Some(64),
    };
    let r = update_virtual_device(&mut state, &d.id, good);
    assert!(r.success);
    let u = r.device.unwrap();
    assert_eq!(u.device_type, DeviceType::Output);
    assert_eq!(u.buffer_size, 64);

    let r = delete_virtual_device(&mut state, &d.id);
    assert!(r.success);
    let r = delete_virtual_device(&mut state, &d.id);
    assert!(!r.success);
    assert_eq!(r.error, Some(format!("Device not found: {}", d.id)));
}

#[test]
fn attach_and_detach_answers() {
    let mut state = AppState::default();
    state.register_device(DeviceInfo {
        id: "d".into(),
        name: "D".into(),
        display_name: None,
        device_type: DeviceType::Output,
        input_channels: 0,
        output_channels: 2,
        sample_rate: 48000,
        buffer_size: 256,
        is_virtual: false,
        status: DeviceStatus::Available,
        backend: Some("ALSA".into()),
    });
    let r = attach_device(&mut state, "d", AttachDeviceRequest { display_name: None });
    assert!(r.success);
    assert_eq!(r.device.unwrap().status, DeviceStatus::Attached);
    let r = attach_device(&mut state, "d", AttachDeviceRequest { display_name: None });
    assert!(!r.success);
    assert_eq!(r.error.as_deref(), Some("Device already attached: d"));
    let r = detach_device(&mut state, "d");
    assert!(r.success);
    let r = detach_device(&mut state, "d");
    assert_eq!(r.error.as_deref(), Some("Device not attached: d"));
    assert_eq!(remote_node_not_found("n2"), "Remote node not found: n2");
}

fn ack(result: SubscribeResult) -> SubscribeAck {
    SubscribeAck {
        request_id: 1,
        subscription_id: 9,
        sample_rate: 48000,
        channels: vec![1],
        vban_stream_name: "AM_9".to_string(),
        result,
    }
}

#[test]
fn subscription_flow_success() {
    let (s, a, act) = subscription_step(
        SubscriptionStage::Received,
        None,
        SubscriptionEvent::Checked { device_known: true, has_controller: true },
        "mic",
    );
    assert_eq!(s, SubscriptionStage::ReadingAddress);
    assert!(matches!(act, SubscriptionAction::ReadAddress));
    let (s, a, act) = subscription_step(s, a, SubscriptionEvent::AddressRead(Ok(())), "mic");
    assert!(matches!(act, SubscriptionAction::Subscribe));
    let (s, a, act) = subscription_step(
        s,
        a,
        SubscriptionEvent::Acknowledged { ack: ack(SubscribeResult::Success), result_text: "Success".into() },
        "mic",
    );
    assert!(matches!(act, SubscriptionAction::StartInput));
    let (s, a, act) = subscription_step(s, a, SubscriptionEvent::InputStarted(Ok(())), "mic");
    assert!(matches!(act, SubscriptionAction::StartSender));
    let (s, _a, act) = subscription_step(s, a, SubscriptionEvent::SenderStarted(Ok(())), "mic");
    assert_eq!(s, SubscriptionStage::Answered);
    match act {
        SubscriptionAction::ActivateAndRespond(resp) => {
            assert!(resp.success);
            assert_eq!(resp.subscription_id, Some(9));
            assert_eq!(resp.vban_stream_name.as_deref(), Some("AM_9"));
            assert_eq!(resp.sample_rate, Some(48000));
            assert!(resp.error.is_none());
        },
        _ => panic!("expected activation"),
    }
}

#[test]
fn subscription_flow_refusals() {
    let (_, _, act) = subscription_step(
        SubscriptionStage::Received,
        None,
        SubscriptionEvent::Checked { device_known: false, has_controller: true },
        "mic",
    );
    match act {
        SubscriptionAction::Respond(r) => assert_eq!(r.error.as_deref(), Some("Device not found: mic")),
        _ => panic!(),
    }
    let (_, _, act) = subscription_step(
        SubscriptionStage::Received,
        None,
        SubscriptionEvent::Checked { device_known: true, has_controller: false },
        "mic",
    );
    match act {
        SubscriptionAction::Respond(r) => assert_eq!(r.error.as_deref(), Some("No route controller available")),
        _ => panic!(),
    }
    let (_, _, act) = subscription_step(
        SubscriptionStage::ReadingAddress,
        None,
        SubscriptionEvent::AddressRead(Err("bad".into())),
        "mic",
    );
    match act {
        SubscriptionAction::BadRequest(m) => assert_eq!(m, "Invalid address: bad"),
        _ => panic!(),
    }
    let (_, _, act) = subscription_step(
        SubscriptionStage::Subscribing,
        None,
        SubscriptionEvent::Acknowledged {
            ack: ack(SubscribeResult::StreamLimitReached),
            result_text: "StreamLimitReached".into(),
        },
        "mic",
    );
    match act {
        SubscriptionAction::Respond(r) => {
            assert!(!r.success);
            assert_eq!(r.error.as_deref(), Some("Subscription failed: StreamLimitReached"));
        },
        _ => panic!(),
    }
    let (_, _, act) = subscription_step(
        SubscriptionStage::StartingInput,
        Some(ack(SubscribeResult::Success)),
        SubscriptionEvent::InputStarted(Err("no device".into())),
        "mic",
    );
    match act {
        SubscriptionAction::Respond(r) => assert_eq!(r.error.as_deref(), Some("Failed to start input stream: no device")),
        _ => panic!(),
    }
    let (_, _, act) = subscription_step(
        SubscriptionStage::StartingSender,
        Some(ack(SubscribeResult::Success)),
        SubscriptionEvent::SenderStarted(Err("socket".into())),
        "mic",
    );
    match act {
        SubscriptionAction::Respond(r) => assert_eq!(r.error.as_deref(), Some("Failed to start VBAN sender: socket")),
        _ => panic!(),
    }
}

fn stereo_output(id: &str) -> DeviceInfo {
    DeviceInfo {
        id: id.into(),
        name: "Speakers".into(),
        display_name: None,
        device_type: DeviceType::Output,
        input_channels: 0,
        output_channels: 2,
        sample_rate: 48000,
        buffer_size: 256,
        is_virtual: false,
        status: DeviceStatus::Available,
        backend: Some("ALSA".into()),
    }
}

#[test]
fn device_settings_answer_for_this_node_only() {
    let mut state = AppState::default();
    state.register_device(stereo_output("d"));
    match update_device(&mut state, "elsewhere", "d", Some("Main".into())) {
        Err(ApiError::NotFound(text)) => assert_eq!(text, "device: elsewhere/d"),
        _ => panic!("expected not found"),
    }
    let d = update_device(&mut state, "local", "d", Some("Main".into())).unwrap();
    assert_eq!(d.display_name.as_deref(), Some("Main"));
    match update_device(&mut state, "local", "x", None) {
        Err(ApiError::BadRequest(text)) => assert_eq!(text, "Device not found: x"),
        _ => panic!("expected bad request"),
    }
    match get_device_channels(&state, "local", "x") {
        Err(ApiError::NotFound(text)) => assert_eq!(text, "device: x"),
        _ => panic!("expected not found"),
    }
    match list_virtual_devices(&state, "elsewhere") {
        Err(ApiError::NotFound(text)) => assert_eq!(text, "node: elsewhere"),
        _ => panic!("expected not found"),
    }
    assert!(list_virtual_devices(&state, "local").unwrap().is_empty());
}

#[test]
fn channel_labels_through_the_api() {
    let mut state = AppState::default();
    state.register_device(stereo_output("d"));
    let c = update_channel_label(&mut state, "local", "d", 1, "Left".into()).unwrap();
    assert_eq!(c.number, 1);
    assert_eq!(c.label.as_deref(), Some("Left"));
    match update_channel_label(&mut state, "local", "d", 2, "x".repeat(32)) {
        Err(ApiError::BadRequest(text)) => assert_eq!(text, "Label too long (max 31 characters)"),
        _ => panic!("expected bad request"),
    }
    match update_channel_label(&mut state, "other", "d", 2, "Right".into()) {
        Err(ApiError::NotFound(text)) => assert_eq!(text, "device: other/d"),
        _ => panic!("expected not found"),
    }
    let all = bulk_update_channel_labels(&mut state, "local", "d", vec![(2, "Right".into())]).unwrap();
    assert_eq!(all.len(), 2);
    assert_eq!(all[0].label.as_deref(), Some("Left"));
    assert_eq!(all[1].label.as_deref(), Some("Right"));
    let channels = get_device_channels(&state, "local", "d").unwrap();
    assert_eq!(channels.len(), 2);
    assert_eq!(channels[1].label.as_deref(), Some("Right"));
}
