//! Records exchanged over the control API: nodes, devices, channels,
//! routes, streams and subscriptions, and the request and response shapes
//! of the device and subscription operations.

use vstd::prelude::*;
use crate::wave_generator::WaveformType as CoreWaveform;

verus! {

/// The text of an optional string.
pub open spec fn opt_view(o: Option<String>) -> Option<Seq<char>> {
    match o {
        Some(s) => Some(s@),
        None => None,
    }
}

/// A copy of an optional string.
pub fn clone_opt(o: &Option<String>) -> (r: Option<String>)
    ensures
        opt_view(r) == opt_view(*o),
{
    match o {
        Some(s) => Some(s.clone()),
        None => None,
    }
}

/// A copy of a list of strings.
pub fn clone_strings(v: &Vec<String>) -> (r: Vec<String>)
    ensures
        r@.map_values(|s: String| s@) == v@.map_values(|s: String| s@),
{
    let mut out: Vec<String> = Vec::new();
    let mut i: usize = 0;
    while i < v.len()
        invariant
            i <= v.len(),
            out@.len() == i,
            forall|j: int| 0 <= j < i ==> #[trigger] out@[j]@ == v@[j]@,
        decreases v.len() - i,
    {
        out.push(v[i].clone());
        i = i + 1;
    }
    assert(out@.map_values(|s: String| s@) =~= v@.map_values(|s: String| s@));
    out
}

/// Health check response.
#[derive(Debug)]
pub struct HealthResponse {
    /// Service status.
    pub status: String,
    /// Service version.
    pub version: String,
    /// Hostname.
    pub hostname: String,
}

/// Node information.
#[derive(Debug)]
pub struct NodeInfo {
    /// Node identifier.
    pub id: String,
    /// Node name.
    pub name: String,
    /// IP addresses.
    pub addresses: Vec<String>,
    /// API port.
    pub api_port: u16,
    /// VBAN port.
    pub vban_port: u16,
    /// Online status.
    pub online: bool,
}

/// The contents of a [`NodeInfo`].
pub struct NodeInfoView {
    pub id: Seq<char>,
    pub name: Seq<char>,
    pub addresses: Seq<Seq<char>>,
    pub api_port: u16,
    pub vban_port: u16,
    pub online: bool,
}

impl View for NodeInfo {
    type V = NodeInfoView;

    open spec fn view(&self) -> NodeInfoView {
        NodeInfoView {
            id: self.id@,
            name: self.name@,
            addresses: self.addresses@.map_values(|s: String| s@),
            api_port: self.api_port,
            vban_port: self.vban_port,
            online: self.online,
        }
    }
}

impl Clone for NodeInfo {
    fn clone(&self) -> (r: Self)
        ensures
            r@ == self@,
    {
        NodeInfo {
            id: self.id.clone(),
            name: self.name.clone(),
            addresses: clone_strings(&self.addresses),
            api_port: self.api_port,
            vban_port: self.vban_port,
            online: self.online,
        }
    }
}

/// Device attachment status: the user-controlled lifecycle of a device.
/// A device starts out `Available` (nothing is connected automatically).
#[derive(Debug, Clone, Copy, PartialEq, Eq, Structural)]
pub enum DeviceStatus {
    /// Detected but not attached.
    Available,
    /// Attached by the user, ready for routing.
    Attached,
    /// Attached and streaming audio.
    Active,
    /// Was attached, now detached.
    Detached,
    /// In an error state.
    Error,
}

impl Default for DeviceStatus {
    fn default() -> (r: Self)
        ensures
            r == DeviceStatus::Available,
    {
        DeviceStatus::Available
    }
}

/// Device type.
#[derive(Debug, Clone, Copy, PartialEq, Eq, Structural)]
pub enum DeviceType {
    /// Capture only.
    Input,
    /// Playback only.
    Output,
    /// Both capture and playback.
    Duplex,
}

/// The type of a device with the given channel counts: duplex with both,
/// input with inputs only, output otherwise.
pub open spec fn type_for_channels(input_channels: u16, output_channels: u16) -> DeviceType {
    if input_channels > 0 && output_channels > 0 {
        DeviceType::Duplex
    } else if input_channels > 0 {
        DeviceType::Input
    } else {
        DeviceType::Output
    }
}

/// The type of a device with the given channel counts.
pub fn device_type_for(input_channels: u16, output_channels: u16) -> (r: DeviceType)
    ensures
        r == type_for_channels(input_channels, output_channels),
{
    if input_channels > 0 && output_channels > 0 {
        DeviceType::Duplex
    } else if input_channels > 0 {
        DeviceType::Input
    } else {
        DeviceType::Output
    }
}

/// Device information for API responses.
#[derive(Debug)]
pub struct DeviceInfo {
    /// Device identifier (system-assigned).
    pub id: String,
    /// Device name (from driver/OS).
    pub name: String,
    /// User-defined display name; where absent, `name` is shown.
    pub display_name: Option<String>,
    /// Device type.
    pub device_type: DeviceType,
    /// Number of input channels.
    pub input_channels: u16,
    /// Number of output channels.
    pub output_channels: u16,
    /// Sample rate in Hz.
    pub sample_rate: u32,
    /// Buffer size in samples.
    pub buffer_size: u32,
    /// Whether this is a virtual device.
    pub is_virtual: bool,
    /// Attachment status.
    pub status: DeviceStatus,
    /// Audio backend (ASIO, WASAPI, ALSA, ...).
    pub backend: Option<String>,
}

/// The contents of a [`DeviceInfo`].
pub struct DeviceInfoView {
    pub id: Seq<char>,
    pub name: Seq<char>,
    pub display_name: Option<Seq<char>>,
    pub device_type: DeviceType,
    pub input_channels: u16,
    pub output_channels: u16,
    pub sample_rate: u32,
    pub buffer_size: u32,
    pub is_virtual: bool,
    pub status: DeviceStatus,
    pub backend: Option<Seq<char>>,
}

impl View for DeviceInfo {
    type V = DeviceInfoView;

    open spec fn view(&self) -> DeviceInfoView {
        DeviceInfoView {
            id: self.id@,
            name: self.name@,
            display_name: opt_view(self.display_name),
            device_type: self.device_type,
            input_channels: self.input_channels,
            output_channels: self.output_channels,
            sample_rate: self.sample_rate,
            buffer_size: self.buffer_size,
            is_virtual: self.is_virtual,
            status: self.status,
            backend: opt_view(self.backend),
        }
    }
}

impl Clone for DeviceInfo {
    fn clone(&self) -> (r: Self)
        ensures
            r@ == self@,
    {
        DeviceInfo {
            id: self.id.clone(),
            name: self.name.clone(),
            display_name: clone_opt(&self.display_name),
            device_type: self.device_type,
            input_channels: self.input_channels,
            output_channels: self.output_channels,
            sample_rate: self.sample_rate,
            buffer_size: self.buffer_size,
            is_virtual: self.is_virtual,
            status: self.status,
            backend: clone_opt(&self.backend),
        }
    }
}

/// The larger of a device's channel counts: how many channels it lists.
pub open spec fn channel_count_of(d: DeviceInfoView) -> u16 {
    if d.input_channels >= d.output_channels {
        d.input_channels
    } else {
        d.output_channels
    }
}

/// Request to attach a device.
#[derive(Debug)]
pub struct AttachDeviceRequest {
    /// Optional display name for the device.
    pub display_name: Option<String>,
}

/// Response after attaching or detaching a device.
#[derive(Debug)]
pub struct AttachDeviceResponse {
    /// Whether the operation succeeded.
    pub success: bool,
    /// Updated device info.
    pub device: Option<DeviceInfo>,
    /// Error message if failed.
    pub error: Option<String>,
}

/// The response that reports the outcome of an attach or detach.
pub fn attach_response(outcome: Result<DeviceInfo, String>) -> (r: AttachDeviceResponse)
    ensures
        r.success == outcome is Ok,
        outcome matches Ok(d) ==> (r.device matches Some(rd) && rd@ == d@) && r.error is None,
        outcome matches Err(e) ==> r.device is None && opt_view(r.error) == Some(e@),
{
    match outcome {
        Ok(d) => AttachDeviceResponse { success: true, device: Some(d), error: None },
        Err(e) => AttachDeviceResponse { success: false, device: None, error: Some(e) },
    }
}

/// Request to update a device (rename, configure sample rate/buffer).
#[derive(Debug)]
pub struct UpdateDeviceRequest {
    /// New display name (None keeps it, empty clears it).
    pub display_name: Option<String>,
    /// New sample rate (None keeps it).
    pub sample_rate: Option<u32>,
    /// New buffer size (None keeps it).
    pub buffer_size: Option<u32>,
}

/// Channel information for API responses (levels are not reported here).
#[derive(Debug)]
pub struct ChannelInfo {
    /// Channel number (1-based).
    pub number: u16,
    /// User-defined label.
    pub label: Option<String>,
}

/// Request to update a channel label.
#[derive(Debug)]
pub struct UpdateChannelLabelRequest {
    /// New label (empty string to clear).
    pub label: String,
}

/// Request to update several channel labels at once.
#[derive(Debug)]
pub struct BulkChannelLabelsRequest {
    /// Channel number (1-based) and label.
    pub labels: Vec<(u16, String)>,
}

/// Default sample rate of a requested virtual device.
pub fn default_sample_rate() -> (r: u32)
    ensures
        r == 48000,
{
    48000
}

/// Default buffer size of a requested virtual device.
pub fn default_buffer_size() -> (r: u32)
    ensures
        r == 256,
{
    256
}

/// Request to create a virtual device.
#[derive(Debug)]
pub struct CreateVirtualDeviceRequest {
    /// Device name.
    pub name: String,
    /// Number of input channels (0-256).
    pub input_channels: u16,
    /// Number of output channels (0-256).
    pub output_channels: u16,
    /// Sample rate (44100, 48000 or 96000).
    pub sample_rate: u32,
    /// Buffer size in samples.
    pub buffer_size: u32,
}

/// Request to update a virtual device.
#[derive(Debug)]
pub struct UpdateVirtualDeviceRequest {
    /// New name.
    pub name: Option<String>,
    /// New input channel count.
    pub input_channels: Option<u16>,
    /// New output channel count.
    pub output_channels: Option<u16>,
    /// New sample rate.
    pub sample_rate: Option<u32>,
    /// New buffer size.
    pub buffer_size: Option<u32>,
}

/// Response after creating, updating or deleting a virtual device.
#[derive(Debug)]
pub struct VirtualDeviceResponse {
    /// Whether the operation succeeded.
    pub success: bool,
    /// The device.
    pub device: Option<DeviceInfo>,
    /// Error message if failed.
    pub error: Option<String>,
}

/// The response that reports the outcome of a virtual device operation.
pub fn virtual_device_response(outcome: Result<DeviceInfo, String>) -> (r: VirtualDeviceResponse)
    ensures
        r.success == outcome is Ok,
        outcome matches Ok(d) ==> (r.device matches Some(rd) && rd@ == d@) && r.error is None,
        outcome matches Err(e) ==> r.device is None && opt_view(r.error) == Some(e@),
{
    match outcome {
        Ok(d) => VirtualDeviceResponse { success: true, device: Some(d), error: None },
        Err(e) => VirtualDeviceResponse { success: false, device: None, error: Some(e) },
    }
}

/// A route between two channels. The volume is held as the bits of its
/// 32-bit float value.
#[derive(Debug)]
pub struct RouteDefinition {
    /// Source node.
    pub source_node: String,
    /// Source device.
    pub source_device: String,
    /// Source channel (1-based).
    pub source_channel: u16,
    /// Destination node.
    pub destination_node: String,
    /// Destination device.
    pub destination_device: String,
    /// Destination channel (1-based).
    pub destination_channel: u16,
    /// Bits of the volume (0.0 to 1.0+).
    pub volume_bits: u32,
    /// Mute state.
    pub muted: bool,
}

/// The contents of a [`RouteDefinition`].
pub struct RouteView {
    pub source_node: Seq<char>,
    pub source_device: Seq<char>,
    pub source_channel: u16,
    pub destination_node: Seq<char>,
    pub destination_device: Seq<char>,
    pub destination_channel: u16,
    pub volume_bits: u32,
    pub muted: bool,
}

impl View for RouteDefinition {
    type V = RouteView;

    open spec fn view(&self) -> RouteView {
        RouteView {
            source_node: self.source_node@,
            source_device: self.source_device@,
            source_channel: self.source_channel,
            destination_node: self.destination_node@,
            destination_device: self.destination_device@,
            destination_channel: self.destination_channel,
            volume_bits: self.volume_bits,
            muted: self.muted,
        }
    }
}

impl Clone for RouteDefinition {
    fn clone(&self) -> (r: Self)
        ensures
            r@ == self@,
    {
        RouteDefinition {
            source_node: self.source_node.clone(),
            source_device: self.source_device.clone(),
            source_channel: self.source_channel,
            destination_node: self.destination_node.clone(),
            destination_device: self.destination_device.clone(),
            destination_channel: self.destination_channel,
            volume_bits: self.volume_bits,
            muted: self.muted,
        }
    }
}

/// Subscription request (sent from a destination node to a source node).
#[derive(Debug)]
pub struct SubscriptionRequest {
    /// Stream name for VBAN.
    pub stream_name: String,
    /// Source device on this node.
    pub source_device: String,
    /// Source channels (1-based).
    pub source_channels: Vec<u16>,
    /// Destination node name.
    pub destination_node: String,
    /// Destination address (IP:port for VBAN).
    pub destination_addr: String,
    /// Requested sample rate.
    pub sample_rate: u32,
}

/// Subscription response (sent from a source node to a destination node).
#[derive(Debug)]
pub struct SubscriptionResponse {
    /// Whether the subscription was accepted.
    pub success: bool,
    /// Subscription ID on the source node.
    pub subscription_id: Option<u64>,
    /// VBAN stream name (may differ from the requested one).
    pub vban_stream_name: Option<String>,
    /// Actual sample rate.
    pub sample_rate: Option<u32>,
    /// Error message if failed.
    pub error: Option<String>,
}

/// Active stream information.
#[derive(Debug)]
pub struct StreamInfo {
    /// Device identifier.
    pub device_id: String,
    /// Device name.
    pub device_name: String,
    /// Stream direction.
    pub direction: StreamDirection,
    /// Number of channels.
    pub channels: u16,
    /// Sample rate.
    pub sample_rate: u32,
    /// Whether the stream is running.
    pub running: bool,
}

/// Stream direction.
#[derive(Debug, Clone, Copy, PartialEq, Eq, Structural)]
pub enum StreamDirection {
    /// Capture.
    Input,
    /// Playback.
    Output,
}

/// Subscription information.
#[derive(Debug)]
pub struct SubscriptionInfo {
    /// Subscription ID.
    pub id: u64,
    /// Source node.
    pub source_node: String,
    /// Source device.
    pub source_device: String,
    /// Source channels.
    pub source_channels: Vec<u16>,
    /// Destination device.
    pub dest_device: String,
    /// Destination channels.
    pub dest_channels: Vec<u16>,
    /// VBAN stream name.
    pub vban_stream_name: String,
    /// Subscription state.
    pub state: SubscriptionState,
    /// Sample rate.
    pub sample_rate: u32,
}

/// Subscription state as the API reports it.
#[derive(Debug, Clone, Copy, PartialEq, Eq, Structural)]
pub enum SubscriptionState {
    /// Pending.
    Pending,
    /// Active.
    Active,
    /// Failed.
    Failed,
}

/// The API's report of a subscription state: pending and active stay,
/// every other state is reported as failed.
pub fn api_subscription_state(state: crate::subscription::SubscriptionState) -> (r: SubscriptionState)
    ensures
        r == match state {
            crate::subscription::SubscriptionState::Pending => SubscriptionState::Pending,
            crate::subscription::SubscriptionState::Active => SubscriptionState::Active,
            _ => SubscriptionState::Failed,
        },
{
    match state {
        crate::subscription::SubscriptionState::Pending => SubscriptionState::Pending,
        crate::subscription::SubscriptionState::Active => SubscriptionState::Active,
        _ => SubscriptionState::Failed,
    }
}

/// Subscription statistics.
#[derive(Debug, Clone, Copy)]
pub struct SubscriptionStatsResponse {
    /// Total outgoing subscriptions.
    pub outgoing_total: usize,
    /// Active outgoing subscriptions.
    pub outgoing_active: usize,
    /// Pending outgoing subscriptions.
    pub outgoing_pending: usize,
    /// Total incoming subscriptions.
    pub incoming_total: usize,
    /// Active incoming subscriptions.
    pub incoming_active: usize,
}

impl SubscriptionStatsResponse {
    /// Statistics with nothing counted, as reported without an audio
    /// processor.
    pub fn empty() -> (r: Self)
        ensures
            r.outgoing_total == 0 && r.outgoing_active == 0 && r.outgoing_pending == 0
                && r.incoming_total == 0 && r.incoming_active == 0,
    {
        SubscriptionStatsResponse {
            outgoing_total: 0,
            outgoing_active: 0,
            outgoing_pending: 0,
            incoming_total: 0,
            incoming_active: 0,
        }
    }
}

/// Waveform type for test signal generation.
#[derive(Debug, Clone, Copy, PartialEq, Eq, Structural)]
pub enum WaveformType {
    /// Sine wave at the given frequency.
    Sine,
    /// Pink noise.
    PinkNoise,
    /// A distinct tone per channel.
    ChannelId,
    /// Frequency sweep.
    Sweep,
    /// Single-sample click.
    Click,
}

impl Default for WaveformType {
    fn default() -> (r: Self)
        ensures
            r == WaveformType::Sine,
    {
        WaveformType::Sine
    }
}

impl WaveformType {
    /// The engine's waveform of the same name.
    pub fn to_core(self) -> (r: CoreWaveform)
        ensures
            r == match self {
                WaveformType::Sine => CoreWaveform::Sine,
                WaveformType::PinkNoise => CoreWaveform::PinkNoise,
                WaveformType::ChannelId => CoreWaveform::ChannelId,
                WaveformType::Sweep => CoreWaveform::Sweep,
                WaveformType::Click => CoreWaveform::Click,
            },
    {
        match self {
            WaveformType::Sine => CoreWaveform::Sine,
            WaveformType::PinkNoise => CoreWaveform::PinkNoise,
            WaveformType::ChannelId => CoreWaveform::ChannelId,
            WaveformType::Sweep => CoreWaveform::Sweep,
            WaveformType::Click => CoreWaveform::Click,
        }
    }

    /// The API waveform of the same name.
    pub fn from_core(core: CoreWaveform) -> (r: Self)
        ensures
            r.to_core_spec() == core,
    {
        match core {
            CoreWaveform::Sine => WaveformType::Sine,
            CoreWaveform::PinkNoise => WaveformType::PinkNoise,
            CoreWaveform::ChannelId => WaveformType::ChannelId,
            CoreWaveform::Sweep => WaveformType::Sweep,
            CoreWaveform::Click => WaveformType::Click,
        }
    }

    /// The engine's waveform of the same name.
    pub open spec fn to_core_spec(self) -> CoreWaveform {
        match self {
            WaveformType::Sine => CoreWaveform::Sine,
            WaveformType::PinkNoise => CoreWaveform::PinkNoise,
            WaveformType::ChannelId => CoreWaveform::ChannelId,
            WaveformType::Sweep => CoreWaveform::Sweep,
            WaveformType::Click => CoreWaveform::Click,
        }
    }
}

/// Converting a waveform to the engine's and back gives it again, and so
/// does the other order.
pub proof fn lemma_waveform_roundtrip(w: WaveformType, c: CoreWaveform)
    ensures
        w.to_core_spec() == c <==> (match c {
            CoreWaveform::Sine => WaveformType::Sine,
            CoreWaveform::PinkNoise => WaveformType::PinkNoise,
            CoreWaveform::ChannelId => WaveformType::ChannelId,
            CoreWaveform::Sweep => WaveformType::Sweep,
            CoreWaveform::Click => WaveformType::Click,
        }) == w,
{
}

/// Default tone frequency of a generator request, in Hz.
pub fn default_frequency() -> (r: u32)
    ensures
        r == 1000,
{
    1000
}

} // verus!
