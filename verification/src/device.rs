//! Device types: direction, operational state, user attachment state,
//! supported configurations and device information.

use vstd::prelude::*;
use std::sync::atomic::{AtomicU8, Ordering};
use std::time::{Duration, Instant};
use crate::time::duration_from_secs;

verus! {

/// Device direction (input or output).
#[derive(Debug, Clone, Copy, PartialEq, Eq, Hash, Structural)]
pub enum DeviceDirection {
    /// Audio input device (microphone, line in, etc.)
    Input,
    /// Audio output device (speakers, headphones, etc.)
    Output,
}

impl DeviceDirection {
    /// The direction's name, as it is displayed.
    pub open spec fn spec_name(self) -> Seq<char> {
        match self {
            DeviceDirection::Input => "input"@,
            DeviceDirection::Output => "output"@,
        }
    }

    /// The direction's name, as it is displayed.
    pub fn to_string(&self) -> (r: String)
        ensures
            r@ == self.spec_name(),
    {
        match self {
            DeviceDirection::Input => String::from_str("input"),
            DeviceDirection::Output => String::from_str("output"),
        }
    }
}

/// Current state of an audio device.
#[derive(Debug, Clone, Copy, PartialEq, Eq, Structural)]
pub enum DeviceState {
    /// Device is available but not in use.
    Idle,
    /// Device is starting up.
    Starting,
    /// Device is running and processing audio.
    Running,
    /// Device encountered an error.
    Error,
    /// Device has been stopped.
    Stopped,
    /// Device has been disconnected.
    Disconnected,
}

impl Default for DeviceState {
    fn default() -> (r: Self)
        ensures
            r == DeviceState::Idle,
    {
        DeviceState::Idle
    }
}

impl DeviceState {
    /// The state's code.
    pub open spec fn spec_code(self) -> u8 {
        match self {
            DeviceState::Idle => 0,
            DeviceState::Starting => 1,
            DeviceState::Running => 2,
            DeviceState::Error => 3,
            DeviceState::Stopped => 4,
            DeviceState::Disconnected => 5,
        }
    }

    /// The state with code `value`, if any.
    pub open spec fn spec_from_code(value: u8) -> Option<Self> {
        if value == 0 { Some(DeviceState::Idle) }
        else if value == 1 { Some(DeviceState::Starting) }
        else if value == 2 { Some(DeviceState::Running) }
        else if value == 3 { Some(DeviceState::Error) }
        else if value == 4 { Some(DeviceState::Stopped) }
        else if value == 5 { Some(DeviceState::Disconnected) }
        else { None }
    }

    /// The state with code `value`, or the default state where none has it.
    pub open spec fn spec_decode(value: u8) -> Self {
        match Self::spec_from_code(value) {
            Some(s) => s,
            None => DeviceState::Idle,
        }
    }

    /// The state's code.
    pub fn to_u8(self) -> (r: u8)
        ensures
            r == self.spec_code(),
    {
        match self {
            DeviceState::Idle => 0,
            DeviceState::Starting => 1,
            DeviceState::Running => 2,
            DeviceState::Error => 3,
            DeviceState::Stopped => 4,
            DeviceState::Disconnected => 5,
        }
    }

    /// Converts from a u8 value.
    pub fn from_u8(value: u8) -> (r: Option<Self>)
        ensures
            r == Self::spec_from_code(value),
    {
        match value {
            0 => Some(DeviceState::Idle),
            1 => Some(DeviceState::Starting),
            2 => Some(DeviceState::Running),
            3 => Some(DeviceState::Error),
            4 => Some(DeviceState::Stopped),
            5 => Some(DeviceState::Disconnected),
            _ => None,
        }
    }

    /// Returns true if the device is available for use.
    pub fn is_available(self) -> (r: bool)
        ensures
            r == (self == DeviceState::Idle || self == DeviceState::Stopped),
    {
        matches!(self, DeviceState::Idle | DeviceState::Stopped)
    }

    /// Returns true if the device is actively processing.
    pub fn is_active(self) -> (r: bool)
        ensures
            r == (self == DeviceState::Starting || self == DeviceState::Running),
    {
        matches!(self, DeviceState::Starting | DeviceState::Running)
    }

    /// The state's name, as it is displayed.
    pub open spec fn spec_name(self) -> Seq<char> {
        match self {
            DeviceState::Idle => "idle"@,
            DeviceState::Starting => "starting"@,
            DeviceState::Running => "running"@,
            DeviceState::Error => "error"@,
            DeviceState::Stopped => "stopped"@,
            DeviceState::Disconnected => "disconnected"@,
        }
    }

    /// The state's name, as it is displayed.
    pub fn to_string(&self) -> (r: String)
        ensures
            r@ == self.spec_name(),
    {
        match self {
            DeviceState::Idle => String::from_str("idle"),
            DeviceState::Starting => String::from_str("starting"),
            DeviceState::Running => String::from_str("running"),
            DeviceState::Error => String::from_str("error"),
            DeviceState::Stopped => String::from_str("stopped"),
            DeviceState::Disconnected => String::from_str("disconnected"),
        }
    }
}

/// Every device state survives the round trip through its code, and every
/// code that names a state is that state's code.
pub proof fn lemma_device_state_code_roundtrip(s: DeviceState, v: u8)
    ensures
        DeviceState::spec_from_code(s.spec_code()) == Some(s),
        DeviceState::spec_from_code(v) matches Some(t) ==> t.spec_code() == v,
{
}

/// User-controlled device attachment state.
///
/// By default, all devices are `Available` (detected but not attached):
/// the user must explicitly attach a device before it can be routed.
#[derive(Debug, Clone, Copy, PartialEq, Eq, Structural)]
pub enum AttachmentState {
    /// Device detected but not attached.
    Available,
    /// User explicitly attached device for routing.
    Attached,
    /// Device is attached and actively streaming audio.
    Active,
    /// Device was attached but is now detached.
    Detached,
    /// Device has an error preventing attachment.
    Error,
}

impl Default for AttachmentState {
    fn default() -> (r: Self)
        ensures
            r == AttachmentState::Available,
    {
        AttachmentState::Available
    }
}

impl AttachmentState {
    /// The state's code.
    pub open spec fn spec_code(self) -> u8 {
        match self {
            AttachmentState::Available => 0,
            AttachmentState::Attached => 1,
            AttachmentState::Active => 2,
            AttachmentState::Detached => 3,
            AttachmentState::Error => 4,
        }
    }

    /// The state with code `value`, if any.
    pub open spec fn spec_from_code(value: u8) -> Option<Self> {
        if value == 0 { Some(AttachmentState::Available) }
        else if value == 1 { Some(AttachmentState::Attached) }
        else if value == 2 { Some(AttachmentState::Active) }
        else if value == 3 { Some(AttachmentState::Detached) }
        else if value == 4 { Some(AttachmentState::Error) }
        else { None }
    }

    /// The state with code `value`, or the default state where none has it.
    pub open spec fn spec_decode(value: u8) -> Self {
        match Self::spec_from_code(value) {
            Some(s) => s,
            None => AttachmentState::Available,
        }
    }

    /// The state's code.
    pub fn to_u8(self) -> (r: u8)
        ensures
            r == self.spec_code(),
    {
        match self {
            AttachmentState::Available => 0,
            AttachmentState::Attached => 1,
            AttachmentState::Active => 2,
            AttachmentState::Detached => 3,
            AttachmentState::Error => 4,
        }
    }

    /// Converts from a u8 value.
    pub fn from_u8(value: u8) -> (r: Option<Self>)
        ensures
            r == Self::spec_from_code(value),
    {
        match value {
            0 => Some(AttachmentState::Available),
            1 => Some(AttachmentState::Attached),
            2 => Some(AttachmentState::Active),
            3 => Some(AttachmentState::Detached),
            4 => Some(AttachmentState::Error),
            _ => None,
        }
    }

    /// Whether a device in this state can participate in routing.
    pub open spec fn spec_can_route(self) -> bool {
        self == AttachmentState::Attached || self == AttachmentState::Active
    }

    /// Returns true if the device can participate in routing.
    pub fn can_route(self) -> (r: bool)
        ensures
            r == self.spec_can_route(),
    {
        matches!(self, AttachmentState::Attached | AttachmentState::Active)
    }

    /// Returns true if the device is streaming audio.
    pub fn is_streaming(self) -> (r: bool)
        ensures
            r == (self == AttachmentState::Active),
    {
        matches!(self, AttachmentState::Active)
    }

    /// Returns true if the device needs user action to attach.
    pub fn needs_attach(self) -> (r: bool)
        ensures
            r == (self == AttachmentState::Available || self == AttachmentState::Detached),
    {
        matches!(self, AttachmentState::Available | AttachmentState::Detached)
    }

    /// The state's name, as it is displayed.
    pub open spec fn spec_name(self) -> Seq<char> {
        match self {
            AttachmentState::Available => "available"@,
            AttachmentState::Attached => "attached"@,
            AttachmentState::Active => "active"@,
            AttachmentState::Detached => "detached"@,
            AttachmentState::Error => "error"@,
        }
    }

    /// The state's name, as it is displayed.
    pub fn to_string(&self) -> (r: String)
        ensures
            r@ == self.spec_name(),
    {
        match self {
            AttachmentState::Available => String::from_str("available"),
            AttachmentState::Attached => String::from_str("attached"),
            AttachmentState::Active => String::from_str("active"),
            AttachmentState::Detached => String::from_str("detached"),
            AttachmentState::Error => String::from_str("error"),
        }
    }
}

/// Every attachment state survives the round trip through its code, and
/// every code that names a state is that state's code.
pub proof fn lemma_attachment_state_code_roundtrip(s: AttachmentState, v: u8)
    ensures
        AttachmentState::spec_from_code(s.spec_code()) == Some(s),
        AttachmentState::spec_from_code(v) matches Some(t) ==> t.spec_code() == v,
{
}

/// A device can route exactly when it is attached, streaming or not, and
/// a device that is not attached needs attaching unless it is in error.
pub proof fn lemma_attachment_routing(s: AttachmentState)
    ensures
        s.spec_can_route() <==> (s == AttachmentState::Attached || s == AttachmentState::Active),
        !s.spec_can_route() && s != AttachmentState::Error ==> (s == AttachmentState::Available || s == AttachmentState::Detached),
        AttachmentState::spec_from_code(0) == Some(AttachmentState::Available),
{
}

/// Atomic wrapper for [`AttachmentState`].
///
/// Other threads may store at any time, so what a load returns is not
/// stated beyond its being a state.
#[derive(Debug)]
pub struct AtomicAttachmentState {
    value: AtomicU8,
}

impl AtomicAttachmentState {
    /// Creates a new atomic attachment state.
    pub fn new(state: AttachmentState) -> (r: Self) {
        AtomicAttachmentState { value: AtomicU8::new(state.to_u8()) }
    }

    /// Loads the current state; a code that names no state reads as the
    /// default state.
    pub fn load(&self) -> (r: AttachmentState)
        ensures
            exists|v: u8| r == #[trigger] AttachmentState::spec_decode(v),
    {
        let v = self.value.load(Ordering::Acquire);
        let r = match AttachmentState::from_u8(v) {
            Some(s) => s,
            None => AttachmentState::Available,
        };
        assert(r == AttachmentState::spec_decode(v));
        r
    }

    /// Stores a new state.
    pub fn store(&self, state: AttachmentState) {
        self.value.store(state.to_u8(), Ordering::Release);
    }

    /// Attempts to transition from expected to new state.
    ///
    /// Returns true if the transition was successful.
    pub fn compare_exchange(&self, expected: AttachmentState, new: AttachmentState) -> (r: bool) {
        self.value.compare_exchange(expected.to_u8(), new.to_u8(), Ordering::AcqRel, Ordering::Acquire).is_ok()
    }
}

impl Default for AtomicAttachmentState {
    fn default() -> (r: Self) {
        Self::new(AttachmentState::Available)
    }
}

/// Atomic wrapper for [`DeviceState`].
///
/// Other threads may store at any time, so what a load returns is not
/// stated beyond its being a state.
#[derive(Debug)]
pub struct AtomicDeviceState {
    value: AtomicU8,
}

impl AtomicDeviceState {
    /// Creates a new atomic device state.
    pub fn new(state: DeviceState) -> (r: Self) {
        AtomicDeviceState { value: AtomicU8::new(state.to_u8()) }
    }

    /// Loads the current state; a code that names no state reads as the
    /// default state.
    pub fn load(&self) -> (r: DeviceState)
        ensures
            exists|v: u8| r == #[trigger] DeviceState::spec_decode(v),
    {
        let v = self.value.load(Ordering::Acquire);
        let r = match DeviceState::from_u8(v) {
            Some(s) => s,
            None => DeviceState::Idle,
        };
        assert(r == DeviceState::spec_decode(v));
        r
    }

    /// Stores a new state.
    pub fn store(&self, state: DeviceState) {
        self.value.store(state.to_u8(), Ordering::Release);
    }

    /// Attempts to transition from expected to new state.
    ///
    /// Returns true if the transition was successful.
    pub fn compare_exchange(&self, expected: DeviceState, new: DeviceState) -> (r: bool) {
        self.value.compare_exchange(expected.to_u8(), new.to_u8(), Ordering::AcqRel, Ordering::Acquire).is_ok()
    }
}

impl Default for AtomicDeviceState {
    fn default() -> (r: Self) {
        Self::new(DeviceState::Idle)
    }
}

/// Supported sample format for a device configuration.
#[derive(Debug, Clone, Copy, PartialEq, Eq, Structural)]
pub enum SampleFormat {
    /// 16-bit signed integer.
    I16,
    /// 32-bit signed integer.
    I32,
    /// 32-bit floating point.
    F32,
}

/// Supported device configuration.
#[derive(Debug, Clone, Copy)]
pub struct DeviceConfig {
    /// Minimum number of channels.
    pub channels_min: u16,
    /// Maximum number of channels.
    pub channels_max: u16,
    /// Minimum sample rate in Hz.
    pub sample_rate_min: u32,
    /// Maximum sample rate in Hz.
    pub sample_rate_max: u32,
    /// Minimum buffer size in samples.
    pub buffer_size_min: u32,
    /// Maximum buffer size in samples.
    pub buffer_size_max: u32,
    /// Supported sample format.
    pub sample_format: SampleFormat,
}

impl DeviceConfig {
    /// Creates a default configuration: 1-2 channels, 44.1-48 kHz,
    /// 64-4096 sample buffers, 32-bit float.
    pub fn default_config() -> (r: Self)
        ensures
            r.channels_min == 1,
            r.channels_max == 2,
            r.sample_rate_min == 44100,
            r.sample_rate_max == 48000,
            r.buffer_size_min == 64,
            r.buffer_size_max == 4096,
            r.sample_format == SampleFormat::F32,
    {
        DeviceConfig {
            channels_min: 1,
            channels_max: 2,
            sample_rate_min: 44100,
            sample_rate_max: 48000,
            buffer_size_min: 64,
            buffer_size_max: 4096,
            sample_format: SampleFormat::F32,
        }
    }
}

/// Information about an audio device.
#[derive(Debug)]
pub struct DeviceInfo {
    /// Unique device identifier.
    pub id: String,
    /// Human-readable device name (from driver/OS).
    pub name: String,
    /// User-defined display name (alias); if `None`, `name` is displayed.
    pub display_name: Option<String>,
    /// Device direction (input/output).
    pub direction: DeviceDirection,
    /// Host API name (ALSA, WASAPI, `CoreAudio`, etc.)
    pub host: String,
    /// Whether this is the default device for its direction.
    pub is_default: bool,
    /// Whether this is a virtual device created by AudioMatrix.
    pub is_virtual: bool,
    /// User-controlled attachment state (zero auto-connect).
    pub attachment_state: AttachmentState,
    /// Supported configurations.
    pub configs: Vec<DeviceConfig>,
    /// Timestamp when device was last seen.
    pub last_seen: Instant,
}

/// Whether one of `configs` accepts the sample rate `rate`.
pub open spec fn configs_support_rate(configs: Seq<DeviceConfig>, rate: u32) -> bool {
    exists|i: int| #![trigger configs[i]] 0 <= i < configs.len() && configs[i].sample_rate_min <= rate <= configs[i].sample_rate_max
}

/// Whether one of `configs` accepts the channel count `channels`.
pub open spec fn configs_support_channels(configs: Seq<DeviceConfig>, channels: u16) -> bool {
    exists|i: int| #![trigger configs[i]] 0 <= i < configs.len() && configs[i].channels_min <= channels <= configs[i].channels_max
}

impl DeviceInfo {
    /// Returns true if the device supports the given sample rate.
    pub fn supports_sample_rate(&self, rate: u32) -> (r: bool)
        ensures
            r == configs_support_rate(self.configs@, rate),
    {
        let n = self.configs.len();
        let mut i: usize = 0;
        while i < n
            invariant
                n == self.configs@.len(),
                i <= n,
                forall|j: int| #![trigger self.configs@[j]] 0 <= j < i ==> !(self.configs@[j].sample_rate_min <= rate <= self.configs@[j].sample_rate_max),
            decreases n - i,
        {
            let c = &self.configs[i];
            if rate >= c.sample_rate_min && rate <= c.sample_rate_max {
                return true;
            }
            i = i + 1;
        }
        false
    }

    /// Returns true if the device supports the given channel count.
    pub fn supports_channels(&self, channels: u16) -> (r: bool)
        ensures
            r == configs_support_channels(self.configs@, channels),
    {
        let n = self.configs.len();
        let mut i: usize = 0;
        while i < n
            invariant
                n == self.configs@.len(),
                i <= n,
                forall|j: int| #![trigger self.configs@[j]] 0 <= j < i ==> !(self.configs@[j].channels_min <= channels <= self.configs@[j].channels_max),
            decreases n - i,
        {
            let c = &self.configs[i];
            if channels >= c.channels_min && channels <= c.channels_max {
                return true;
            }
            i = i + 1;
        }
        false
    }

    /// Returns the maximum supported channel count (2 when no configuration
    /// is known).
    pub fn max_channels(&self) -> (r: u16)
        ensures
            self.configs@.len() == 0 ==> r == 2,
            self.configs@.len() > 0 ==> (exists|i: int| #![trigger self.configs@[i]] 0 <= i < self.configs@.len() && self.configs@[i].channels_max == r),
            forall|i: int| #![trigger self.configs@[i]] 0 <= i < self.configs@.len() ==> self.configs@[i].channels_max <= r,
    {
        let n = self.configs.len();
        if n == 0 {
            return 2;
        }
        let mut best: u16 = self.configs[0].channels_max;
        let mut at: usize = 0;
        let mut i: usize = 1;
        while i < n
            invariant
                n == self.configs@.len(),
                1 <= i <= n,
                at < i,
                self.configs@[at as int].channels_max == best,
                forall|j: int| #![trigger self.configs@[j]] 0 <= j < i ==> self.configs@[j].channels_max <= best,
            decreases n - i,
        {
            if self.configs[i].channels_max > best {
                best = self.configs[i].channels_max;
                at = i;
            }
            i = i + 1;
        }
        best
    }

    /// Returns the display name (alias if set, otherwise system name).
    pub fn display_name(&self) -> (r: &str)
        ensures
            r@ == (match self.display_name {
                Some(d) => d@,
                None => self.name@,
            }),
    {
        match &self.display_name {
            Some(d) => d.as_str(),
            None => self.name.as_str(),
        }
    }

    /// Returns true if the device can participate in routing.
    pub fn can_route(&self) -> (r: bool)
        ensures
            r == self.attachment_state.spec_can_route(),
    {
        self.attachment_state.can_route()
    }

    /// Returns true if the device is actively streaming.
    pub fn is_streaming(&self) -> (r: bool)
        ensures
            r == (self.attachment_state == AttachmentState::Active),
    {
        self.attachment_state.is_streaming()
    }
}

/// Event emitted when device state changes.
#[derive(Debug)]
pub enum DeviceEvent {
    /// A new device was discovered.
    Added(DeviceInfo),
    /// A device was removed (disconnected).
    Removed { id: String, name: String },
    /// A device's state changed.
    StateChanged { id: String, old_state: DeviceState, new_state: DeviceState },
    /// A device's configuration changed.
    ConfigChanged { id: String },
}

/// Configuration for the device manager.
#[derive(Debug, Clone)]
pub struct DeviceManagerConfig {
    /// How often to poll for device changes.
    pub poll_interval: Duration,
    /// TTL for device cache entries.
    pub cache_ttl: Duration,
    /// Whether to automatically refresh on startup.
    pub auto_refresh: bool,
}

impl Default for DeviceManagerConfig {
    /// Polls every 2 s, keeps cache entries 10 s, refreshes on startup.
    fn default() -> (r: Self)
        ensures
            r.auto_refresh,
    {
        DeviceManagerConfig {
            poll_interval: duration_from_secs(2),
            cache_ttl: duration_from_secs(10),
            auto_refresh: true,
        }
    }
}

} // verus!
