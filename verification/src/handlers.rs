//! What the control API answers on this node: the checks of virtual device
//! requests, the answers to device operations, and the steps of accepting
//! a subscription from another node. Reaching other nodes and the audio
//! processor is left to the caller, which reports each outcome back.

use vstd::prelude::*;
use crate::api_models::{
    attach_response, opt_view, virtual_device_response, AttachDeviceRequest, AttachDeviceResponse,
    CreateVirtualDeviceRequest, DeviceInfoView, SubscriptionResponse, UpdateVirtualDeviceRequest,
    VirtualDeviceResponse,
};
use crate::api_error::{Error as ApiError, ErrorView as ApiErrorView};
use crate::api_models::{DeviceInfo, NodeInfo, RouteDefinition};
use crate::api_models::{channel_count_of, ChannelInfo};
use crate::route_controller::RouteController;
use crate::cross_node::{api_url, local_device_path, local_device_path_of, node_api_url};
use crate::api_models::NodeInfoView;
use crate::state::{resolves, virtual_id_form};
use crate::state::{channels_named, crosses_nodes, is_route_error_message};
use crate::state::{
    attach_refusal, attached_device, changed_virtual_device, detach_refusal, label_fits, label_pairs,
    label_too_long, labels_of, lists_channels, lists_devices, names_local, new_virtual_device, renamed_device,
    route_text, virtual_refusal, with_label, with_labels, AppState,
};
use crate::websocket::RouteUpdate;
use crate::subscription::SubscribeAck;
use crate::text::{decimal, has_prefix, push_decimal, push_str, str_equal};

verus! {

/// The sample rates that a virtual device may have.
pub const SUPPORTED_SAMPLE_RATES: [u32; 3] = [44100, 48000, 96000];

/// Whether a virtual device may have a sample rate.
pub open spec fn supported_rate(rate: u32) -> bool {
    rate == 44100 || rate == 48000 || rate == 96000
}

/// The message of a refused sample rate.
pub open spec fn unsupported_rate_text(rate: u32) -> Seq<char> {
    "Unsupported sample rate: "@ + decimal(rate as nat) + ". Supported: [44100, 48000, 96000]"@
}

/// Why a request for a new virtual device is refused, if it is: an
/// unsupported rate, no channels at all, or more than 256 of either kind,
/// checked in that order.
pub open spec fn new_device_problem(rate: u32, input_channels: u16, output_channels: u16) -> Option<
    Seq<char>,
> {
    if !supported_rate(rate) {
        Some(unsupported_rate_text(rate))
    } else if input_channels == 0 && output_channels == 0 {
        Some("At least one of input_channels or output_channels must be > 0"@)
    } else if input_channels > 256 || output_channels > 256 {
        Some("Channel count cannot exceed 256"@)
    } else {
        None
    }
}

/// Whether a requested change of sample rate is refused.
pub open spec fn rate_refused(rate: Option<u32>) -> bool {
    rate matches Some(r) && !supported_rate(r)
}

/// Whether a sample rate is one a virtual device may have.
pub fn is_supported_rate(rate: u32) -> (r: bool)
    ensures
        r == supported_rate(rate),
{
    let mut i: usize = 0;
    while i < 3
        invariant
            i <= 3,
            SUPPORTED_SAMPLE_RATES@ == seq![44100u32, 48000u32, 96000u32],
            forall|j: int| 0 <= j < i ==> SUPPORTED_SAMPLE_RATES@[j] != rate,
        decreases 3 - i,
    {
        if SUPPORTED_SAMPLE_RATES[i] == rate {
            return true;
        }
        i = i + 1;
    }
    false
}

/// The message of a refused sample rate.
pub fn unsupported_rate_message(rate: u32) -> (r: String)
    ensures
        r@ == unsupported_rate_text(rate),
{
    let mut s = String::new();
    push_str(&mut s, "Unsupported sample rate: ");
    push_decimal(&mut s, rate as u64);
    push_str(&mut s, ". Supported: [44100, 48000, 96000]");
    s
}

/// Why a request for a new virtual device is refused, if it is.
pub fn new_virtual_device_problem(req: &CreateVirtualDeviceRequest) -> (r: Option<String>)
    ensures
        opt_view(r) == new_device_problem(req.sample_rate, req.input_channels, req.output_channels),
{
    if !is_supported_rate(req.sample_rate) {
        return Some(unsupported_rate_message(req.sample_rate));
    }
    if req.input_channels == 0 && req.output_channels == 0 {
        return Some(String::from_str("At least one of input_channels or output_channels must be > 0"));
    }
    if req.input_channels > 256 || req.output_channels > 256 {
        return Some(String::from_str("Channel count cannot exceed 256"));
    }
    None
}

/// A response that reports a refusal.
fn refused(message: String) -> (r: VirtualDeviceResponse)
    ensures
        !r.success && r.device is None && opt_view(r.error) == Some(message@),
{
    VirtualDeviceResponse { success: false, device: None, error: Some(message) }
}

/// Creates a virtual device on this node as a request asks, after checking
/// the request.
pub fn create_virtual_device(state: &mut AppState, req: CreateVirtualDeviceRequest) -> (r:
    VirtualDeviceResponse)
    requires
        old(state).wf(),
    ensures
        final(state).wf(),
        new_device_problem(req.sample_rate, req.input_channels, req.output_channels) matches Some(m)
            ==> !r.success && r.device is None && opt_view(r.error) == Some(m) && final(state).device_map()
            == old(state).device_map(),
        new_device_problem(req.sample_rate, req.input_channels, req.output_channels) is None ==> (
        r.success && r.error is None && (r.device matches Some(d) && d@ == new_virtual_device(
            d@.id,
            req.name@,
            req.input_channels,
            req.output_channels,
            req.sample_rate,
            req.buffer_size,
        ) && virtual_id_form(d@.id) && final(state).device_map() == old(state).device_map().insert(
            d@.id,
            d@,
        ))),
        final(state).local() == old(state).local(),
        final(state).remote_map() == old(state).remote_map(),
        final(state).label_table() == old(state).label_table(),
        final(state).route_map() == old(state).route_map(),
{
    if let Some(problem) = new_virtual_device_problem(&req) {
        return refused(problem);
    }
    let outcome = state.create_virtual_device(
        req.name,
        req.input_channels,
        req.output_channels,
        req.sample_rate,
        req.buffer_size,
    );
    virtual_device_response(outcome)
}

/// Changes a virtual device on this node as a request asks, after checking
/// the requested sample rate.
pub fn update_virtual_device(state: &mut AppState, device_id: &str, req: UpdateVirtualDeviceRequest) -> (r:
    VirtualDeviceResponse)
    requires
        old(state).wf(),
    ensures
        final(state).wf(),
        req.sample_rate matches Some(rate) ==> (!supported_rate(rate) ==> !r.success && r.device is None
            && opt_view(r.error) == Some(unsupported_rate_text(rate)) && final(state).device_map() == old(state).device_map()),
        !rate_refused(req.sample_rate) ==> match virtual_refusal(
            old(state).device_map(),
            device_id@,
        ) {
            Some(m) => !r.success && r.device is None && opt_view(r.error) == Some(m) && final(state).device_map() == old(state).device_map(),
            None => r.success && r.error is None && (r.device matches Some(d) && d@
                == changed_virtual_device(
                old(state).device_map()[device_id@],
                opt_view(req.name),
                req.input_channels,
                req.output_channels,
                req.sample_rate,
                req.buffer_size,
            ) && final(state).device_map() == old(state).device_map().insert(device_id@, d@)),
        },
        final(state).local() == old(state).local(),
        final(state).remote_map() == old(state).remote_map(),
        final(state).label_table() == old(state).label_table(),
        final(state).route_map() == old(state).route_map(),
{
    if let Some(rate) = req.sample_rate {
        if !is_supported_rate(rate) {
            return refused(unsupported_rate_message(rate));
        }
    }
    let outcome = state.update_virtual_device(
        device_id,
        req.name,
        req.input_channels,
        req.output_channels,
        req.sample_rate,
        req.buffer_size,
    );
    virtual_device_response(outcome)
}

/// Deletes a virtual device on this node.
pub fn delete_virtual_device(state: &mut AppState, device_id: &str) -> (r: VirtualDeviceResponse)
    requires
        old(state).wf(),
    ensures
        final(state).wf(),
        match virtual_refusal(old(state).device_map(), device_id@) {
            Some(m) => !r.success && r.device is None && opt_view(r.error) == Some(m) && final(state).device_map() == old(state).device_map(),
            None => r.success && r.error is None && (r.device matches Some(d) && d@ == old(state).device_map()[device_id@]) && final(state).device_map() == old(state).device_map().remove(
                device_id@,
            ),
        },
        final(state).local() == old(state).local(),
        final(state).remote_map() == old(state).remote_map(),
        final(state).label_table() == old(state).label_table(),
        final(state).route_map() == old(state).route_map(),
{
    let outcome = state.delete_virtual_device(device_id);
    virtual_device_response(outcome)
}

/// Attaches a device on this node.
pub fn attach_device(state: &mut AppState, device_id: &str, req: AttachDeviceRequest) -> (r:
    AttachDeviceResponse)
    requires
        old(state).wf(),
    ensures
        final(state).wf(),
        match attach_refusal(old(state).device_map(), device_id@) {
            Some(m) => !r.success && r.device is None && opt_view(r.error) == Some(m) && final(state).device_map() == old(state).device_map(),
            None => r.success && r.error is None && (r.device matches Some(d) && d@ == attached_device(
                old(state).device_map()[device_id@],
                opt_view(req.display_name),
            ) && final(state).device_map() == old(state).device_map().insert(device_id@, d@)),
        },
        final(state).local() == old(state).local(),
        final(state).remote_map() == old(state).remote_map(),
        final(state).label_table() == old(state).label_table(),
        final(state).route_map() == old(state).route_map(),
{
    let outcome = state.attach_device(device_id, req.display_name);
    attach_response(outcome)
}

/// Detaches a device on this node.
pub fn detach_device(state: &mut AppState, device_id: &str) -> (r: AttachDeviceResponse)
    requires
        old(state).wf(),
    ensures
        final(state).wf(),
        match detach_refusal(old(state).device_map(), device_id@) {
            Some(m) => !r.success && r.device is None && opt_view(r.error) == Some(m) && final(state).device_map() == old(state).device_map(),
            None => r.success && r.error is None && (r.device matches Some(d) && d@ == (DeviceInfoView {
                status: crate::api_models::DeviceStatus::Detached,
                ..old(state).device_map()[device_id@]
            }) && final(state).device_map() == old(state).device_map().insert(device_id@, d@)),
        },
        final(state).local() == old(state).local(),
        final(state).remote_map() == old(state).remote_map(),
        final(state).label_table() == old(state).label_table(),
        final(state).route_map() == old(state).route_map(),
{
    let outcome = state.detach_device(device_id);
    attach_response(outcome)
}

/// The answer of a remote node that could not be reached by reference.
pub fn remote_node_not_found(node_id: &str) -> (r: String)
    ensures
        r@ == "Remote node not found: "@ + node_id@,
{
    let mut s = String::new();
    push_str(&mut s, "Remote node not found: ");
    push_str(&mut s, node_id);
    s
}

/// Response to creating a route.
#[derive(Debug)]
pub struct RouteCreatedResponse {
    /// Identifier of the route.
    pub id: String,
}

/// Response to deleting a route.
#[derive(Debug)]
pub struct RouteDeletedResponse {
    /// Identifier of the route.
    pub id: String,
}

/// Response with the number of streams.
#[derive(Debug)]
pub struct StreamCountResponse {
    /// Number of input streams.
    pub input_streams: usize,
    /// Number of output streams.
    pub output_streams: usize,
}

/// Stream counts for debugging.
#[derive(Debug)]
pub struct StreamRegistryDebug {
    /// Number of input streams.
    pub input_count: usize,
    /// Number of output streams.
    pub output_count: usize,
}

/// Debugging information about the node.
#[derive(Debug)]
pub struct DebugInfo {
    /// Stream counts.
    pub stream_registry: StreamRegistryDebug,
    /// Whether an audio processor is present.
    pub route_controller_available: bool,
    /// Identifiers of the attached devices.
    pub attached_devices: Vec<String>,
    /// Audio system diagnostics, where an audio processor is present.
    pub audio_diagnostics: Option<crate::route_controller::AudioDiagnostics>,
    /// Diagnoses of the attached devices.
    pub device_diagnostics: Vec<crate::route_controller::DeviceDiagnostic>,
}

/// Where a subscription request stands while this node accepts it.
#[derive(Debug, Clone, Copy, PartialEq, Eq, Structural)]
pub enum SubscriptionStage {
    /// The request has arrived.
    Received,
    /// The destination address is being read.
    ReadingAddress,
    /// The subscription manager is deciding.
    Subscribing,
    /// The source device's input stream is being started.
    StartingInput,
    /// The VBAN sender is being started.
    StartingSender,
    /// The request has been answered.
    Answered,
}

/// What the caller found out, for the step that a stage waits on.
pub enum SubscriptionEvent {
    /// Whether the source device is known and an audio processor is present.
    Checked { device_known: bool, has_controller: bool },
    /// The destination address was read, or why it could not be.
    AddressRead(Result<(), String>),
    /// The subscription manager's acknowledgement, and the text of its
    /// result for a refusal.
    Acknowledged { ack: SubscribeAck, result_text: String },
    /// The input stream started, or why it did not.
    InputStarted(Result<(), String>),
    /// The VBAN sender started, or why it did not.
    SenderStarted(Result<(), String>),
}

/// What the caller does next.
pub enum SubscriptionAction {
    /// Read the destination address.
    ReadAddress,
    /// Ask the subscription manager, accepting every existing device.
    Subscribe,
    /// Start the source device's input stream.
    StartInput,
    /// Start the VBAN sender for the acknowledged subscription.
    StartSender,
    /// Activate the incoming subscription and send the response.
    ActivateAndRespond(SubscriptionResponse),
    /// Send the response.
    Respond(SubscriptionResponse),
    /// Refuse the request as malformed, with the message.
    BadRequest(String),
}

/// A response that refuses a subscription with a message.
pub open spec fn is_refusal(r: SubscriptionResponse, message: Seq<char>) -> bool {
    &&& !r.success
    &&& r.subscription_id is None
    &&& r.vban_stream_name is None
    &&& r.sample_rate is None
    &&& opt_view(r.error) == Some(message)
}

fn refusal(message: String) -> (r: SubscriptionResponse)
    ensures
        is_refusal(r, message@),
{
    SubscriptionResponse {
        success: false,
        subscription_id: None,
        vban_stream_name: None,
        sample_rate: None,
        error: Some(message),
    }
}

fn prefixed(prefix: &str, detail: String) -> (r: String)
    ensures
        r@ == prefix@ + detail@,
{
    let mut s = String::new();
    push_str(&mut s, prefix);
    push_str(&mut s, detail.as_str());
    s
}

/// One step of accepting a subscription from another node: from the stage
/// and what the caller found out, the next stage and what to do. The
/// acknowledgement of an accepted subscription is carried to the response.
pub fn subscription_step(
    stage: SubscriptionStage,
    ack: Option<SubscribeAck>,
    event: SubscriptionEvent,
    source_device: &str,
) -> (r: (SubscriptionStage, Option<SubscribeAck>, SubscriptionAction))
    ensures
        match (stage, event) {
            (SubscriptionStage::Received, SubscriptionEvent::Checked { device_known, has_controller }) =>
                if !device_known {
                    r.0 == SubscriptionStage::Answered && (r.2 matches SubscriptionAction::Respond(resp)
                        && is_refusal(resp, "Device not found: "@ + source_device@))
                } else if !has_controller {
                    r.0 == SubscriptionStage::Answered && (r.2 matches SubscriptionAction::Respond(resp)
                        && is_refusal(resp, "No route controller available"@))
                } else {
                    r.0 == SubscriptionStage::ReadingAddress && r.2 is ReadAddress
                },
            (SubscriptionStage::ReadingAddress, SubscriptionEvent::AddressRead(res)) => match res {
                Err(e) => r.0 == SubscriptionStage::Answered && (r.2 matches SubscriptionAction::BadRequest(m)
                    && m@ == "Invalid address: "@ + e@),
                Ok(()) => r.0 == SubscriptionStage::Subscribing && r.2 is Subscribe,
            },
            (SubscriptionStage::Subscribing, SubscriptionEvent::Acknowledged { ack: a, result_text }) =>
                if a.result is Success {
                r.0 == SubscriptionStage::StartingInput && r.2 is StartInput && (r.1 matches Some(k)
                    && k.subscription_id == a.subscription_id && k.vban_stream_name@ == a.vban_stream_name@
                    && k.sample_rate == a.sample_rate)
            } else {
                r.0 == SubscriptionStage::Answered && (r.2 matches SubscriptionAction::Respond(resp)
                    && is_refusal(resp, "Subscription failed: "@ + result_text@))
            },
            (SubscriptionStage::StartingInput, SubscriptionEvent::InputStarted(res)) => match res {
                Err(e) => r.0 == SubscriptionStage::Answered && (r.2 matches SubscriptionAction::Respond(resp)
                    && is_refusal(resp, "Failed to start input stream: "@ + e@)),
                Ok(()) => r.0 == SubscriptionStage::StartingSender && r.2 is StartSender && r.1 == ack,
            },
            (SubscriptionStage::StartingSender, SubscriptionEvent::SenderStarted(res)) => match res {
                Err(e) => r.0 == SubscriptionStage::Answered && (r.2 matches SubscriptionAction::Respond(resp)
                    && is_refusal(resp, "Failed to start VBAN sender: "@ + e@)),
                Ok(()) => r.0 == SubscriptionStage::Answered && match ack {
                    Some(k) => r.2 matches SubscriptionAction::ActivateAndRespond(resp) && resp.success
                        && resp.subscription_id == Some(k.subscription_id) && opt_view(resp.vban_stream_name)
                        == Some(k.vban_stream_name@) && resp.sample_rate == Some(k.sample_rate)
                        && resp.error is None,
                    None => r.2 matches SubscriptionAction::Respond(resp) && is_refusal(
                        resp,
                        "Subscription failed: no acknowledgement"@,
                    ),
                },
            },
            _ => r.0 == stage && r.1 == ack && (r.2 matches SubscriptionAction::BadRequest(m) && m@
                == "Unexpected step in subscription"@),
        },
{
    match (stage, event) {
        (SubscriptionStage::Received, SubscriptionEvent::Checked { device_known, has_controller }) => {
            if !device_known {
                let mut m = String::new();
                push_str(&mut m, "Device not found: ");
                push_str(&mut m, source_device);
                (SubscriptionStage::Answered, ack, SubscriptionAction::Respond(refusal(m)))
            } else if !has_controller {
                (
                    SubscriptionStage::Answered,
                    ack,
                    SubscriptionAction::Respond(refusal(String::from_str("No route controller available"))),
                )
            } else {
                (SubscriptionStage::ReadingAddress, ack, SubscriptionAction::ReadAddress)
            }
        },
        (SubscriptionStage::ReadingAddress, SubscriptionEvent::AddressRead(res)) => match res {
            Err(e) => (
                SubscriptionStage::Answered,
                ack,
                SubscriptionAction::BadRequest(prefixed("Invalid address: ", e)),
            ),
            Ok(()) => (SubscriptionStage::Subscribing, ack, SubscriptionAction::Subscribe),
        },
        (SubscriptionStage::Subscribing, SubscriptionEvent::Acknowledged { ack: a, result_text }) => {
            if a.result.is_success() {
                (SubscriptionStage::StartingInput, Some(a), SubscriptionAction::StartInput)
            } else {
                (
                    SubscriptionStage::Answered,
                    ack,
                    SubscriptionAction::Respond(refusal(prefixed("Subscription failed: ", result_text))),
                )
            }
        },
        (SubscriptionStage::StartingInput, SubscriptionEvent::InputStarted(res)) => match res {
            Err(e) => (
                SubscriptionStage::Answered,
                ack,
                SubscriptionAction::Respond(refusal(prefixed("Failed to start input stream: ", e))),
            ),
            Ok(()) => (SubscriptionStage::StartingSender, ack, SubscriptionAction::StartSender),
        },
        (SubscriptionStage::StartingSender, SubscriptionEvent::SenderStarted(res)) => match res {
            Err(e) => (
                SubscriptionStage::Answered,
                ack,
                SubscriptionAction::Respond(refusal(prefixed("Failed to start VBAN sender: ", e))),
            ),
            Ok(()) => match ack {
                Some(k) => {
                    let resp = SubscriptionResponse {
                        success: true,
                        subscription_id: Some(k.subscription_id),
                        vban_stream_name: Some(k.vban_stream_name.clone()),
                        sample_rate: Some(k.sample_rate),
                        error: None,
                    };
                    (SubscriptionStage::Answered, Some(k), SubscriptionAction::ActivateAndRespond(resp))
                },
                None => (
                    SubscriptionStage::Answered,
                    None,
                    SubscriptionAction::Respond(
                        refusal(String::from_str("Subscription failed: no acknowledgement")),
                    ),
                ),
            },
        },
        _ => (
            stage,
            ack,
            SubscriptionAction::BadRequest(String::from_str("Unexpected step in subscription")),
        ),
    }
}

/// The text of a resource that does not exist: `{kind}: {id}`.
pub open spec fn not_found_text(kind: Seq<char>, id: Seq<char>) -> Seq<char> {
    kind + ": "@ + id
}

fn not_found(kind: &str, id: &str) -> (r: ApiError)
    ensures
        r@ == ApiErrorView::NotFound(not_found_text(kind@, id@)),
{
    let mut s = String::from_str(kind);
    push_str(&mut s, ": ");
    push_str(&mut s, id);
    ApiError::NotFound(s)
}

/// A node by identifier: this node or a known remote one.
pub fn get_node(state: &AppState, id: &str) -> (r: Result<NodeInfo, ApiError>)
    requires
        state.wf(),
    ensures
        r is Ok <==> (state.local().id == id@ || state.remote_map().contains_key(id@)),
        r matches Ok(n) ==> n@ == if state.local().id == id@ {
            state.local()
        } else {
            state.remote_map()[id@]
        },
        r matches Err(e) ==> e@ == ApiErrorView::NotFound(not_found_text("node"@, id@)),
{
    match state.get_node(id) {
        Some(n) => Ok(n),
        None => Err(not_found("node", id)),
    }
}

/// A device of this node by identifier.
pub fn get_device(state: &AppState, device_id: &str) -> (r: Result<DeviceInfo, ApiError>)
    requires
        state.wf(),
    ensures
        r is Ok <==> state.device_map().contains_key(device_id@),
        r matches Ok(d) ==> d@ == state.device_map()[device_id@],
        r matches Err(e) ==> e@ == ApiErrorView::NotFound(not_found_text("device"@, device_id@)),
{
    match state.get_device(device_id) {
        Some(d) => Ok(d),
        None => Err(not_found("device", device_id)),
    }
}

/// The answer where a device of another node could not be fetched.
pub fn remote_device_not_found(node_id: &str, device_id: &str) -> (r: ApiError)
    ensures
        r@ == ApiErrorView::NotFound(not_found_text("device"@, node_id@ + "/"@ + device_id@)),
{
    let mut s = String::from_str("device");
    push_str(&mut s, ": ");
    push_str(&mut s, node_id);
    push_str(&mut s, "/");
    push_str(&mut s, device_id);
    assert(s@ =~= not_found_text("device"@, node_id@ + "/"@ + device_id@));
    ApiError::NotFound(s)
}

/// A route by identifier.
pub fn get_route(state: &AppState, id: &str) -> (r: Result<RouteDefinition, ApiError>)
    requires
        state.wf(),
    ensures
        r is Ok <==> state.route_map().contains_key(id@),
        r matches Ok(d) ==> d@ == state.route_map()[id@],
        r matches Err(e) ==> e@ == ApiErrorView::NotFound(not_found_text("route"@, id@)),
{
    match state.get_route(id) {
        Some(d) => Ok(d),
        None => Err(not_found("route", id)),
    }
}

fn route_update(action: &str, route_id: String) -> (r: RouteUpdate)
    ensures
        r.action@ == action@,
        r.route_id@ == route_id@,
{
    RouteUpdate { action: String::from_str(action), route_id }
}

/// Creates or replaces a route; answers with its identifier and the
/// update to announce.
pub fn create_route(state: &mut AppState, route: RouteDefinition) -> (r: Result<(RouteCreatedResponse, RouteUpdate), ApiError>)
    requires
        old(state).wf(),
    ensures
        final(state).wf(),
        r matches Ok((c, u)) && c.id@ == route_text(route@) && u.action@ == "added"@ && u.route_id@ == route_text(
            route@,
        ),
        final(state).route_map() == old(state).route_map().insert(route_text(route@), route@),
        final(state).local() == old(state).local(),
        final(state).remote_map() == old(state).remote_map(),
        final(state).device_map() == old(state).device_map(),
        final(state).label_table() == old(state).label_table(),
{
    match state.upsert_route(route) {
        Ok(id) => {
            let update = route_update("added", id.clone());
            Ok((RouteCreatedResponse { id }, update))
        },
        Err(e) => Err(ApiError::BadRequest(e)),
    }
}

/// Replaces the route `id` by `route`; where the new definition has
/// another identifier, the old route goes. Fails, changing nothing, where
/// there is no route `id`.
pub fn update_route(state: &mut AppState, id: &str, route: RouteDefinition) -> (r: Result<(RouteDefinition, RouteUpdate), ApiError>)
    requires
        old(state).wf(),
    ensures
        final(state).wf(),
        r is Ok <==> old(state).route_map().contains_key(id@),
        r matches Err(e) ==> e@ == ApiErrorView::NotFound(not_found_text("route"@, id@)) && final(state).route_map()
            == old(state).route_map(),
        r matches Ok((d, u)) ==> d@ == route@ && u.action@ == "modified"@ && u.route_id@ == route_text(route@)
            && final(state).route_map() == if route_text(route@) == id@ {
            old(state).route_map().insert(id@, route@)
        } else {
            old(state).route_map().insert(route_text(route@), route@).remove(id@)
        },
        final(state).local() == old(state).local(),
        final(state).remote_map() == old(state).remote_map(),
        final(state).device_map() == old(state).device_map(),
        final(state).label_table() == old(state).label_table(),
{
    if state.get_route(id).is_none() {
        return Err(not_found("route", id));
    }
    let returned = route.clone();
    match state.upsert_route(route) {
        Ok(new_id) => {
            if !str_equal(new_id.as_str(), id) {
                let _ = state.remove_route(id);
            }
            Ok((returned, route_update("modified", new_id)))
        },
        Err(e) => Err(ApiError::BadRequest(e)),
    }
}

/// Deletes the route `id`; answers with its identifier and the update to
/// announce. Fails where there is no such route.
pub fn delete_route(state: &mut AppState, id: &str) -> (r: Result<(RouteDeletedResponse, RouteUpdate), ApiError>)
    requires
        old(state).wf(),
    ensures
        final(state).wf(),
        r is Ok <==> old(state).route_map().contains_key(id@),
        r matches Ok((d, u)) ==> d.id@ == id@ && u.action@ == "removed"@ && u.route_id@ == id@,
        r matches Err(e) ==> e@ == ApiErrorView::NotFound(not_found_text("route"@, id@)),
        final(state).route_map() == old(state).route_map().remove(id@),
        final(state).local() == old(state).local(),
        final(state).remote_map() == old(state).remote_map(),
        final(state).device_map() == old(state).device_map(),
        final(state).label_table() == old(state).label_table(),
{
    match state.remove_route(id) {
        Ok(Some(_)) => {
            let update = route_update("removed", String::from_str(id));
            Ok((RouteDeletedResponse { id: String::from_str(id) }, update))
        },
        Ok(None) => Err(not_found("route", id)),
        Err(e) => Err(ApiError::Internal(e)),
    }
}

/// Renames a device of node `node_id`. A device of another node is not
/// found; a device this node does not have is a bad request.
pub fn update_device(state: &mut AppState, node_id: &str, device_id: &str, display_name: Option<String>) -> (r:
    Result<DeviceInfo, ApiError>)
    requires
        old(state).wf(),
    ensures
        final(state).wf(),
        !names_local(old(state).local(), node_id@) ==> (r matches Err(e) && e@ == ApiErrorView::NotFound(
            not_found_text("device"@, node_id@ + "/"@ + device_id@),
        )) && final(state).device_map() == old(state).device_map(),
        names_local(old(state).local(), node_id@) && !old(state).device_map().contains_key(device_id@) ==> (r matches Err(
            e,
        ) && e@ == ApiErrorView::BadRequest("Device not found: "@ + device_id@)) && final(state).device_map()
            == old(state).device_map(),
        names_local(old(state).local(), node_id@) && old(state).device_map().contains_key(device_id@) ==> (r matches Ok(
            d,
        ) && d@ == renamed_device(old(state).device_map()[device_id@], opt_view(display_name))
            && final(state).device_map() == old(state).device_map().insert(device_id@, d@)),
        final(state).local() == old(state).local(),
        final(state).remote_map() == old(state).remote_map(),
        final(state).label_table() == old(state).label_table(),
        final(state).route_map() == old(state).route_map(),
{
    if !state.is_local_node(node_id) {
        return Err(remote_device_not_found(node_id, device_id));
    }
    match state.update_device(device_id, display_name) {
        Ok(d) => Ok(d),
        Err(e) => Err(ApiError::BadRequest(e)),
    }
}

/// The channels of a device of node `node_id`, each with its label. A
/// device of another node, or one this node does not have, is not found.
pub fn get_device_channels(state: &AppState, node_id: &str, device_id: &str) -> (r: Result<Vec<ChannelInfo>, ApiError>)
    requires
        state.wf(),
    ensures
        !names_local(state.local(), node_id@) ==> (r matches Err(e) && e@ == ApiErrorView::NotFound(
            not_found_text("device"@, node_id@ + "/"@ + device_id@),
        )),
        names_local(state.local(), node_id@) && !state.device_map().contains_key(device_id@) ==> (r matches Err(e)
            && e@ == ApiErrorView::NotFound(not_found_text("device"@, device_id@))),
        names_local(state.local(), node_id@) && state.device_map().contains_key(device_id@) ==> (r matches Ok(v)
            && lists_channels(
            v@,
            channel_count_of(state.device_map()[device_id@]),
            labels_of(state.label_table(), device_id@),
        )),
{
    if !state.is_local_node(node_id) {
        return Err(remote_device_not_found(node_id, device_id));
    }
    match state.get_device_channels(device_id) {
        Some(v) => Ok(v),
        None => Err(not_found("device", device_id)),
    }
}

/// Sets the label of one channel of a device of node `node_id`. A device
/// of another node is not found; what the state refuses is a bad request.
pub fn update_channel_label(state: &mut AppState, node_id: &str, device_id: &str, channel: u16, label: String) -> (r:
    Result<ChannelInfo, ApiError>)
    requires
        old(state).wf(),
    ensures
        final(state).wf(),
        !names_local(old(state).local(), node_id@) ==> (r matches Err(e) && e@ == ApiErrorView::NotFound(
            not_found_text("device"@, node_id@ + "/"@ + device_id@),
        )) && final(state).label_table() == old(state).label_table(),
        names_local(old(state).local(), node_id@) && !old(state).device_map().contains_key(device_id@) ==> (r matches Err(
            e,
        ) && e@ == ApiErrorView::BadRequest("Device not found: "@ + device_id@)) && final(state).label_table()
            == old(state).label_table(),
        names_local(old(state).local(), node_id@) && old(state).device_map().contains_key(device_id@) && !label_fits(
            label@,
        ) ==> (r matches Err(e) && e@ == ApiErrorView::BadRequest(label_too_long())) && final(state).label_table()
            == old(state).label_table(),
        names_local(old(state).local(), node_id@) && old(state).device_map().contains_key(device_id@) && label_fits(
            label@,
        ) ==> (r matches Ok(c) && c.number == channel && opt_view(c.label) == (if label@.len() == 0 {
            None::<Seq<char>>
        } else {
            Some(label@)
        })) && labels_of(final(state).label_table(), device_id@) == with_label(
            labels_of(old(state).label_table(), device_id@),
            channel,
            label@,
        ),
        final(state).device_map() == old(state).device_map(),
        final(state).route_map() == old(state).route_map(),
{
    if !state.is_local_node(node_id) {
        return Err(remote_device_not_found(node_id, device_id));
    }
    match state.set_channel_label(device_id, channel, label) {
        Ok(c) => Ok(c),
        Err(e) => Err(ApiError::BadRequest(e)),
    }
}

/// Sets the labels of several channels of a device of node `node_id` at
/// once. A device of another node is not found; what the state refuses is
/// a bad request.
pub fn bulk_update_channel_labels(state: &mut AppState, node_id: &str, device_id: &str, labels: Vec<(u16, String)>) -> (r:
    Result<Vec<ChannelInfo>, ApiError>)
    requires
        old(state).wf(),
    ensures
        final(state).wf(),
        !names_local(old(state).local(), node_id@) ==> (r matches Err(e) && e@ == ApiErrorView::NotFound(
            not_found_text("device"@, node_id@ + "/"@ + device_id@),
        )) && final(state).label_table() == old(state).label_table(),
        names_local(old(state).local(), node_id@) && !old(state).device_map().contains_key(device_id@) ==> (r matches Err(
            e,
        ) && e@ == ApiErrorView::BadRequest("Device not found: "@ + device_id@)) && final(state).label_table()
            == old(state).label_table(),
        names_local(old(state).local(), node_id@) && old(state).device_map().contains_key(device_id@) && (exists|j: int|
            0 <= j < labels@.len() && !label_fits(#[trigger] label_pairs(labels@)[j].1)) ==> (r matches Err(e) && e@
            == ApiErrorView::BadRequest(label_too_long())) && final(state).label_table() == old(state).label_table(),
        names_local(old(state).local(), node_id@) && old(state).device_map().contains_key(device_id@) && (forall|j: int|
            0 <= j < labels@.len() ==> label_fits(#[trigger] label_pairs(labels@)[j].1)) ==> labels_of(
            final(state).label_table(),
            device_id@,
        ) == with_labels(labels_of(old(state).label_table(), device_id@), label_pairs(labels@)) && (r matches Ok(v)
            && lists_channels(
            v@,
            channel_count_of(old(state).device_map()[device_id@]),
            labels_of(final(state).label_table(), device_id@),
        )),
        final(state).device_map() == old(state).device_map(),
        final(state).route_map() == old(state).route_map(),
{
    if !state.is_local_node(node_id) {
        return Err(remote_device_not_found(node_id, device_id));
    }
    match state.set_channel_labels(device_id, labels) {
        Ok(v) => Ok(v),
        Err(e) => Err(ApiError::BadRequest(e)),
    }
}

/// The virtual devices of node `node_id`; another node is not found.
pub fn list_virtual_devices(state: &AppState, node_id: &str) -> (r: Result<Vec<DeviceInfo>, ApiError>)
    requires
        state.wf(),
    ensures
        !names_local(state.local(), node_id@) ==> (r matches Err(e) && e@ == ApiErrorView::NotFound(
            not_found_text("node"@, node_id@),
        )),
        names_local(state.local(), node_id@) ==> (r matches Ok(v) && lists_devices(
            v@,
            state.device_map(),
            |d: DeviceInfoView| d.is_virtual,
        )),
{
    if !state.is_local_node(node_id) {
        return Err(not_found("node", node_id));
    }
    Ok(state.list_virtual_devices())
}

/// Creates or replaces a route as [`create_route`] does, carrying it out
/// on the audio processor first (see [`AppState::upsert_route_with`]); a
/// refusal there is a bad request and leaves the routes as they were.
pub fn create_route_with<C: RouteController>(state: &mut AppState, controller: &C, route: RouteDefinition) -> (r: Result<
    (RouteCreatedResponse, RouteUpdate),
    ApiError,
>)
    requires
        old(state).wf(),
        channels_named(route@),
    ensures
        final(state).wf(),
        r matches Ok((c, u)) ==> c.id@ == route_text(route@) && u.action@ == "added"@ && u.route_id@ == route_text(route@)
            && final(state).route_map() == old(state).route_map().insert(route_text(route@), route@),
        r matches Err(e) ==> (e@ matches ApiErrorView::BadRequest(m) && is_route_error_message(m)),
        r is Err ==> !crosses_nodes(old(state).local(), route@) && final(state).route_map() == old(state).route_map(),
        crosses_nodes(old(state).local(), route@) ==> r is Ok,
        final(state).local() == old(state).local(),
        final(state).remote_map() == old(state).remote_map(),
        final(state).device_map() == old(state).device_map(),
        final(state).label_table() == old(state).label_table(),
{
    match state.upsert_route_with(controller, route) {
        Ok(id) => {
            let update = route_update("added", id.clone());
            Ok((RouteCreatedResponse { id }, update))
        },
        Err(e) => Err(ApiError::BadRequest(e)),
    }
}

/// Deletes a route as [`delete_route`] does, and its connection from the
/// audio processor.
pub fn delete_route_with<C: RouteController>(state: &mut AppState, controller: &C, id: &str) -> (r: Result<
    (RouteDeletedResponse, RouteUpdate),
    ApiError,
>)
    requires
        old(state).wf(),
        old(state).route_map().contains_key(id@) ==> channels_named(old(state).route_map()[id@]),
    ensures
        final(state).wf(),
        r is Ok <==> old(state).route_map().contains_key(id@),
        r matches Ok((d, u)) ==> d.id@ == id@ && u.action@ == "removed"@ && u.route_id@ == id@,
        r matches Err(e) ==> e@ == ApiErrorView::NotFound(not_found_text("route"@, id@)),
        final(state).route_map() == old(state).route_map().remove(id@),
        final(state).local() == old(state).local(),
        final(state).remote_map() == old(state).remote_map(),
        final(state).device_map() == old(state).device_map(),
        final(state).label_table() == old(state).label_table(),
{
    match state.remove_route_with(controller, id) {
        Ok(Some(_)) => {
            let update = route_update("removed", String::from_str(id));
            Ok((RouteDeletedResponse { id: String::from_str(id) }, update))
        },
        Ok(None) => Err(not_found("route", id)),
        Err(e) => Err(ApiError::Internal(e)),
    }
}

/// Replaces the route `id` by `route` as [`update_route`] does, carrying
/// the new route out on the audio processor first and removing the old
/// one's connection there where the identifier changes. A refusal of the
/// processor is a bad request and leaves the routes as they were.
pub fn update_route_with<C: RouteController>(state: &mut AppState, controller: &C, id: &str, route: RouteDefinition) -> (r:
    Result<(RouteDefinition, RouteUpdate), ApiError>)
    requires
        old(state).wf(),
        channels_named(route@),
        old(state).route_map().contains_key(id@) ==> channels_named(old(state).route_map()[id@]),
    ensures
        final(state).wf(),
        !old(state).route_map().contains_key(id@) ==> (r matches Err(e) && e@ == ApiErrorView::NotFound(
            not_found_text("route"@, id@),
        )),
        r matches Err(e) ==> final(state).route_map() == old(state).route_map(),
        r matches Ok((d, u)) ==> d@ == route@ && u.action@ == "modified"@ && u.route_id@ == route_text(route@)
            && final(state).route_map() == if route_text(route@) == id@ {
            old(state).route_map().insert(id@, route@)
        } else {
            old(state).route_map().insert(route_text(route@), route@).remove(id@)
        },
        old(state).route_map().contains_key(id@) && crosses_nodes(old(state).local(), route@) ==> r is Ok,
        final(state).local() == old(state).local(),
        final(state).remote_map() == old(state).remote_map(),
        final(state).device_map() == old(state).device_map(),
        final(state).label_table() == old(state).label_table(),
{
    if state.get_route(id).is_none() {
        return Err(not_found("route", id));
    }
    let returned = route.clone();
    match state.upsert_route_with(controller, route) {
        Ok(new_id) => {
            if !str_equal(new_id.as_str(), id) {
                let _ = state.remove_route_with(controller, id);
            }
            Ok((returned, route_update("modified", new_id)))
        },
        Err(e) => Err(ApiError::BadRequest(e)),
    }
}

/// Where a request about a node's devices goes.
#[derive(Debug)]
pub enum ProxyTarget {
    /// The node is this one: answer here.
    Local,
    /// Another node, reached at this address.
    Remote(String),
    /// Another node that is not known, or has no address.
    Unreachable,
}

/// Where a request about the devices of node `node_id` goes: this node, or
/// the path (see [`local_device_path`]) at the first address of a remote
/// node that the reference resolves to, or nowhere.
pub fn proxy_target(state: &AppState, node_id: &str, collection: &str, device_id: Option<&str>, suffix: &str) -> (r:
    ProxyTarget)
    requires
        state.wf(),
    ensures
        r is Local <==> names_local(state.local(), node_id@),
        r matches ProxyTarget::Remote(u) ==> exists|n: NodeInfoView|
            resolves(state.remote_map(), node_id@, Some(n)) && n.addresses.len() > 0 && u@ == api_url(
                #[trigger] n.addresses[0],
                n.api_port,
                local_device_path(collection@, match device_id {
                    Some(d) => Some(d@),
                    None => None,
                }, suffix@),
            ),
        r is Unreachable ==> resolves(state.remote_map(), node_id@, None) || exists|n: NodeInfoView|
            resolves(state.remote_map(), node_id@, Some(n)) && #[trigger] n.addresses.len() == 0,
{
    if state.is_local_node(node_id) {
        return ProxyTarget::Local;
    }
    match state.get_remote_node(node_id) {
        None => ProxyTarget::Unreachable,
        Some(node) => {
            let path = local_device_path_of(collection, device_id, suffix);
            match node_api_url(&node, path.as_str()) {
                Some(u) => {
                    assert(resolves(state.remote_map(), node_id@, Some(node@)));
                    ProxyTarget::Remote(u)
                },
                None => {
                    assert(resolves(state.remote_map(), node_id@, Some(node@)));
                    ProxyTarget::Unreachable
                },
            }
        },
    }
}

} // verus!
