//! Connections: their identifiers, their lifecycle states and health
//! counters.

use vstd::prelude::*;
use std::sync::atomic::{AtomicU8, Ordering};
use crate::atomic::{AtomicF32, UNITY_BITS};
use crate::buffer::{RingBuffer, after_write, is_capacity_for, read_count, write_count};
use std::time::{Duration, Instant};
use crate::text::{decimal, push_decimal, push_str, str_equal};
use crate::time::{duration_as_nanos, instant_now, instant_elapsed};

verus! {

/// Connection states.
#[derive(Debug, Clone, Copy, PartialEq, Eq, Structural)]
pub enum ConnectionState {
    /// Connection not initialized.
    Disconnected,
    /// Attempting to connect.
    Connecting,
    /// Connection established and active.
    Connected,
    /// Connection lost, attempting to reconnect.
    Reconnecting,
    /// Connection failed, waiting before retry.
    Backoff,
    /// Connection permanently failed.
    Failed,
}

impl ConnectionState {
    /// The state's code.
    pub open spec fn spec_code(self) -> u8 {
        match self {
            ConnectionState::Disconnected => 0,
            ConnectionState::Connecting => 1,
            ConnectionState::Connected => 2,
            ConnectionState::Reconnecting => 3,
            ConnectionState::Backoff => 4,
            ConnectionState::Failed => 5,
        }
    }

    /// The state a code decodes to: codes that name no state decode to
    /// `Disconnected`.
    pub open spec fn spec_decode(value: u8) -> Self {
        if value == 1 { ConnectionState::Connecting }
        else if value == 2 { ConnectionState::Connected }
        else if value == 3 { ConnectionState::Reconnecting }
        else if value == 4 { ConnectionState::Backoff }
        else if value == 5 { ConnectionState::Failed }
        else { ConnectionState::Disconnected }
    }

    /// The state's code.
    pub fn to_u8(self) -> (r: u8)
        ensures
            r == self.spec_code(),
    {
        match self {
            ConnectionState::Disconnected => 0,
            ConnectionState::Connecting => 1,
            ConnectionState::Connected => 2,
            ConnectionState::Reconnecting => 3,
            ConnectionState::Backoff => 4,
            ConnectionState::Failed => 5,
        }
    }
}

impl From<u8> for ConnectionState {
    fn from(value: u8) -> (r: Self) {
        match value {
            1 => ConnectionState::Connecting,
            2 => ConnectionState::Connected,
            3 => ConnectionState::Reconnecting,
            4 => ConnectionState::Backoff,
            5 => ConnectionState::Failed,
            _ => ConnectionState::Disconnected,
        }
    }
}

impl vstd::std_specs::convert::FromSpecImpl<u8> for ConnectionState {
    open spec fn obeys_from_spec() -> bool {
        true
    }

    open spec fn from_spec(v: u8) -> ConnectionState {
        ConnectionState::spec_decode(v)
    }
}

/// Every connection state survives the round trip through its code.
pub proof fn lemma_connection_state_code_roundtrip(s: ConnectionState)
    ensures
        ConnectionState::spec_decode(s.spec_code()) == s,
{
}

/// Atomic wrapper for connection state.
///
/// Other threads may store at any time, so what a load returns is not
/// stated beyond its being the decoding of some code.
pub struct AtomicConnectionState(AtomicU8);

impl AtomicConnectionState {
    /// Creates a new atomic state.
    pub fn new(state: ConnectionState) -> (r: Self) {
        AtomicConnectionState(AtomicU8::new(state.to_u8()))
    }

    /// Loads the current state.
    pub fn load(&self) -> (r: ConnectionState)
        ensures
            exists|v: u8| r == #[trigger] ConnectionState::spec_decode(v),
    {
        let v = self.0.load(Ordering::Acquire);
        let r = ConnectionState::from(v);
        assert(r == ConnectionState::spec_decode(v));
        r
    }

    /// Stores a new state.
    pub fn store(&self, state: ConnectionState) {
        self.0.store(state.to_u8(), Ordering::Release);
    }

    /// Attempts to transition from expected to new state.
    ///
    /// Returns true if the transition was successful.
    pub fn compare_exchange(&self, expected: ConnectionState, new: ConnectionState) -> (r: bool) {
        self.0.compare_exchange(expected.to_u8(), new.to_u8(), Ordering::AcqRel, Ordering::Acquire).is_ok()
    }
}

impl Default for AtomicConnectionState {
    fn default() -> (r: Self) {
        Self::new(ConnectionState::Disconnected)
    }
}

/// Connection health metrics.
#[derive(Debug, Clone)]
pub struct ConnectionHealth {
    /// Number of successful connections.
    pub connect_count: u64,
    /// Number of failed connection attempts.
    pub failure_count: u64,
    /// Number of disconnections.
    pub disconnect_count: u64,
    /// Last successful connection time.
    pub last_connected: Option<Instant>,
    /// Last failure time.
    pub last_failure: Option<Instant>,
    /// Current uptime since last connection.
    pub uptime: Option<Duration>,
}

impl Default for ConnectionHealth {
    fn default() -> (r: Self)
        ensures
            r.connect_count == 0,
            r.failure_count == 0,
            r.disconnect_count == 0,
            r.last_connected is None,
            r.last_failure is None,
            r.uptime is None,
    {
        ConnectionHealth {
            connect_count: 0,
            failure_count: 0,
            disconnect_count: 0,
            last_connected: None,
            last_failure: None,
            uptime: None,
        }
    }
}

impl ConnectionHealth {
    /// Updates uptime based on last connection time.
    pub fn update_uptime(&mut self)
        ensures
            final(self).connect_count == old(self).connect_count,
            final(self).failure_count == old(self).failure_count,
            final(self).disconnect_count == old(self).disconnect_count,
            final(self).last_connected == old(self).last_connected,
            final(self).last_failure == old(self).last_failure,
            old(self).last_connected is Some ==> final(self).uptime is Some,
            old(self).last_connected is None ==> final(self).uptime == old(self).uptime,
    {
        match &self.last_connected {
            Some(connected_at) => {
                let up = instant_elapsed(connected_at);
                self.uptime = Some(up);
            },
            None => {},
        }
    }

    /// Records a successful connection.
    pub fn record_connected(&mut self)
        requires
            old(self).connect_count < u64::MAX,
        ensures
            final(self).connect_count == old(self).connect_count + 1,
            final(self).failure_count == old(self).failure_count,
            final(self).disconnect_count == old(self).disconnect_count,
            final(self).last_connected is Some,
            final(self).last_failure == old(self).last_failure,
            final(self).uptime == old(self).uptime,
    {
        self.connect_count = self.connect_count + 1;
        self.last_connected = Some(instant_now());
    }

    /// Records a connection failure.
    pub fn record_failure(&mut self)
        requires
            old(self).failure_count < u64::MAX,
        ensures
            final(self).connect_count == old(self).connect_count,
            final(self).failure_count == old(self).failure_count + 1,
            final(self).disconnect_count == old(self).disconnect_count,
            final(self).last_connected == old(self).last_connected,
            final(self).last_failure is Some,
            final(self).uptime == old(self).uptime,
    {
        self.failure_count = self.failure_count + 1;
        self.last_failure = Some(instant_now());
    }

    /// Records a disconnection.
    pub fn record_disconnected(&mut self)
        requires
            old(self).disconnect_count < u64::MAX,
        ensures
            final(self).connect_count == old(self).connect_count,
            final(self).failure_count == old(self).failure_count,
            final(self).disconnect_count == old(self).disconnect_count + 1,
            final(self).last_connected == old(self).last_connected,
            final(self).last_failure == old(self).last_failure,
            final(self).uptime is None,
    {
        self.disconnect_count = self.disconnect_count + 1;
        self.uptime = None;
    }
}

/// The node name of local endpoints.
pub open spec fn local_node() -> Seq<char> {
    "LOCAL"@
}

/// The textual form of an endpoint: `{node}:{device}:{channel}`.
pub open spec fn endpoint_text(node: Seq<char>, device: Seq<char>, channel: u16) -> Seq<char> {
    node + ":"@ + device + ":"@ + decimal(channel as nat)
}

/// Identifies a unique audio connection between a source and destination
/// channel. Channels are 1-based; for local connections the node is "LOCAL".
#[derive(Debug, Clone, PartialEq, Eq, Hash)]
pub struct ConnectionId {
    /// Source node name.
    pub source_node: String,
    /// Source device name.
    pub source_device: String,
    /// Source channel (1-based).
    pub source_channel: u16,
    /// Destination node name.
    pub destination_node: String,
    /// Destination device name.
    pub destination_device: String,
    /// Destination channel (1-based).
    pub destination_channel: u16,
}

/// The contents of a [`ConnectionId`].
pub struct ConnectionIdView {
    pub source_node: Seq<char>,
    pub source_device: Seq<char>,
    pub source_channel: u16,
    pub destination_node: Seq<char>,
    pub destination_device: Seq<char>,
    pub destination_channel: u16,
}

impl View for ConnectionId {
    type V = ConnectionIdView;

    open spec fn view(&self) -> ConnectionIdView {
        ConnectionIdView {
            source_node: self.source_node@,
            source_device: self.source_device@,
            source_channel: self.source_channel,
            destination_node: self.destination_node@,
            destination_device: self.destination_device@,
            destination_channel: self.destination_channel,
        }
    }
}

/// Why a connection identifier is refused, if it is: the first failing
/// check among zero channels and empty names, in that order.
pub open spec fn connection_id_problem(
    source_node: Seq<char>,
    source_device: Seq<char>,
    source_channel: u16,
    destination_node: Seq<char>,
    destination_device: Seq<char>,
    destination_channel: u16,
) -> Option<Seq<char>> {
    if source_channel == 0 {
        Some("source channel must be 1-based (got 0)"@)
    } else if destination_channel == 0 {
        Some("destination channel must be 1-based (got 0)"@)
    } else if source_node.len() == 0 {
        Some("source node name cannot be empty"@)
    } else if source_device.len() == 0 {
        Some("source device name cannot be empty"@)
    } else if destination_node.len() == 0 {
        Some("destination node name cannot be empty"@)
    } else if destination_device.len() == 0 {
        Some("destination device name cannot be empty"@)
    } else {
        None
    }
}

impl ConnectionId {
    /// Creates a new connection ID. Channels are 1-based.
    pub fn new(
        source_node: &str,
        source_device: &str,
        source_channel: u16,
        destination_node: &str,
        destination_device: &str,
        destination_channel: u16,
    ) -> (r: Self)
        requires
            source_channel > 0,
            destination_channel > 0,
        ensures
            r@ == (ConnectionIdView {
                source_node: source_node@,
                source_device: source_device@,
                source_channel,
                destination_node: destination_node@,
                destination_device: destination_device@,
                destination_channel,
            }),
    {
        ConnectionId {
            source_node: String::from_str(source_node),
            source_device: String::from_str(source_device),
            source_channel,
            destination_node: String::from_str(destination_node),
            destination_device: String::from_str(destination_device),
            destination_channel,
        }
    }

    /// Creates a new connection ID with validation: channels must be
    /// 1-based and names non-empty.
    pub fn try_new(
        source_node: &str,
        source_device: &str,
        source_channel: u16,
        destination_node: &str,
        destination_device: &str,
        destination_channel: u16,
    ) -> (r: Result<Self, &'static str>)
        ensures
            connection_id_problem(source_node@, source_device@, source_channel, destination_node@, destination_device@, destination_channel) matches Some(m)
                ==> (r matches Err(e) && e@ == m),
            connection_id_problem(source_node@, source_device@, source_channel, destination_node@, destination_device@, destination_channel) is None
                ==> (r matches Ok(id) && id@ == (ConnectionIdView {
                    source_node: source_node@,
                    source_device: source_device@,
                    source_channel,
                    destination_node: destination_node@,
                    destination_device: destination_device@,
                    destination_channel,
                })),
    {
        if source_channel == 0 {
            return Err("source channel must be 1-based (got 0)");
        }
        if destination_channel == 0 {
            return Err("destination channel must be 1-based (got 0)");
        }
        if source_node.unicode_len() == 0 {
            return Err("source node name cannot be empty");
        }
        if source_device.unicode_len() == 0 {
            return Err("source device name cannot be empty");
        }
        if destination_node.unicode_len() == 0 {
            return Err("destination node name cannot be empty");
        }
        if destination_device.unicode_len() == 0 {
            return Err("destination device name cannot be empty");
        }
        Ok(Self::new(source_node, source_device, source_channel, destination_node, destination_device, destination_channel))
    }

    /// Creates a local connection ID (both source and destination on this node).
    pub fn local(
        source_device: &str,
        source_channel: u16,
        destination_device: &str,
        destination_channel: u16,
    ) -> (r: Self)
        requires
            source_channel > 0,
            destination_channel > 0,
        ensures
            r@ == (ConnectionIdView {
                source_node: local_node(),
                source_device: source_device@,
                source_channel,
                destination_node: local_node(),
                destination_device: destination_device@,
                destination_channel,
            }),
    {
        Self::new("LOCAL", source_device, source_channel, "LOCAL", destination_device, destination_channel)
    }

    /// Returns the destination ID string (for routing matrix lookup).
    pub fn destination_id(&self) -> (r: String)
        ensures
            r@ == endpoint_text(self.destination_node@, self.destination_device@, self.destination_channel),
    {
        let mut s = String::new();
        push_str(&mut s, self.destination_node.as_str());
        push_str(&mut s, ":");
        push_str(&mut s, self.destination_device.as_str());
        push_str(&mut s, ":");
        push_decimal(&mut s, self.destination_channel as u64);
        s
    }

    /// Returns the source ID string.
    pub fn source_id(&self) -> (r: String)
        ensures
            r@ == endpoint_text(self.source_node@, self.source_device@, self.source_channel),
    {
        let mut s = String::new();
        push_str(&mut s, self.source_node.as_str());
        push_str(&mut s, ":");
        push_str(&mut s, self.source_device.as_str());
        push_str(&mut s, ":");
        push_decimal(&mut s, self.source_channel as u64);
        s
    }

    /// The connection's textual form: `{source}->{destination}`.
    pub fn to_string(&self) -> (r: String)
        ensures
            r@ == endpoint_text(self.source_node@, self.source_device@, self.source_channel) + "->"@
                + endpoint_text(self.destination_node@, self.destination_device@, self.destination_channel),
    {
        let mut s = self.source_id();
        push_str(&mut s, "->");
        let d = self.destination_id();
        push_str(&mut s, d.as_str());
        s
    }

    /// Returns true if this is a local-only connection.
    pub fn is_local(&self) -> (r: bool)
        ensures
            r == (self.source_node@ == local_node() && self.destination_node@ == local_node()),
    {
        str_equal(self.source_node.as_str(), "LOCAL") && str_equal(self.destination_node.as_str(), "LOCAL")
    }

    /// Whether two identifiers name the same connection.
    pub fn same_as(&self, other: &ConnectionId) -> (r: bool)
        ensures
            r == (self@ == other@),
    {
        str_equal(self.source_node.as_str(), other.source_node.as_str())
            && str_equal(self.source_device.as_str(), other.source_device.as_str())
            && self.source_channel == other.source_channel
            && str_equal(self.destination_node.as_str(), other.destination_node.as_str())
            && str_equal(self.destination_device.as_str(), other.destination_device.as_str())
            && self.destination_channel == other.destination_channel
    }
}


/// Retry policy of a connection. Spans are in nanoseconds; the backoff
/// grows by a factor given in thousandths.
#[derive(Debug, Clone, Copy)]
pub struct RetryConfig {
    /// Backoff after the first failure.
    pub initial_backoff_nanos: u64,
    /// Longest backoff.
    pub max_backoff_nanos: u64,
    /// Growth of the backoff per failure, in thousandths (2000 doubles it).
    pub backoff_multiplier_permille: u64,
    /// Failures after which the connection gives up (0: never).
    pub max_retries: u32,
    /// Connection timeout.
    pub connect_timeout_nanos: u64,
}

impl Default for RetryConfig {
    /// Half a second at first, doubling up to 30 seconds, never giving up,
    /// with a 10 second connection timeout.
    fn default() -> (r: Self)
        ensures
            r.initial_backoff_nanos == 500_000_000,
            r.max_backoff_nanos == 30_000_000_000,
            r.backoff_multiplier_permille == 2000,
            r.max_retries == 0,
            r.connect_timeout_nanos == 10_000_000_000,
    {
        RetryConfig {
            initial_backoff_nanos: 500_000_000,
            max_backoff_nanos: 30_000_000_000,
            backoff_multiplier_permille: 2000,
            max_retries: 0,
            connect_timeout_nanos: 10_000_000_000,
        }
    }
}

/// The backoff after a failure: the initial backoff after the first, else
/// the current one times the multiplier; never more than the maximum.
pub open spec fn next_backoff(config: RetryConfig, current: u64) -> u64 {
    let grown: int = if current == 0 {
        config.initial_backoff_nanos as int
    } else {
        current as int * config.backoff_multiplier_permille as int / 1000
    };
    if grown <= config.max_backoff_nanos as int {
        grown as u64
    } else {
        config.max_backoff_nanos
    }
}

/// Whether a failure with this many retries so far gives up.
pub open spec fn gives_up(config: RetryConfig, retries_before: u8) -> bool {
    config.max_retries > 0 && retries_before + 1 >= config.max_retries
}

/// Drives a connection through its states: connecting, connected,
/// reconnecting after a loss, backing off after a failure, and failed once
/// the retries run out.
pub struct ConnectionManager {
    state: ConnectionState,
    config: RetryConfig,
    retry_count: u8,
    current_backoff_nanos: u64,
    health: ConnectionHealth,
    last_state_change: Instant,
}

impl ConnectionManager {
    /// The current state.
    pub closed spec fn state_spec(&self) -> ConnectionState {
        self.state
    }

    /// The retry policy.
    pub closed spec fn config_spec(&self) -> RetryConfig {
        self.config
    }

    /// Failures since the last successful connection or reset.
    pub closed spec fn retries(&self) -> u8 {
        self.retry_count
    }

    /// The current backoff, in nanoseconds.
    pub closed spec fn backoff_nanos(&self) -> u64 {
        self.current_backoff_nanos
    }

    /// The health counters.
    pub closed spec fn health_spec(&self) -> ConnectionHealth {
        self.health
    }

    /// Creates a disconnected manager with the given policy.
    pub fn new(config: RetryConfig) -> (r: Self)
        ensures
            r.state_spec() == ConnectionState::Disconnected,
            r.config_spec() == config,
            r.retries() == 0,
            r.backoff_nanos() == 0,
            r.health_spec().connect_count == 0,
            r.health_spec().failure_count == 0,
            r.health_spec().disconnect_count == 0,
    {
        ConnectionManager {
            state: ConnectionState::Disconnected,
            config,
            retry_count: 0,
            current_backoff_nanos: 0,
            health: ConnectionHealth::default(),
            last_state_change: instant_now(),
        }
    }

    /// Creates a disconnected manager with the default policy.
    pub fn with_defaults() -> (r: Self)
        ensures
            r.state_spec() == ConnectionState::Disconnected,
            r.config_spec().initial_backoff_nanos == 500_000_000,
            r.config_spec().max_backoff_nanos == 30_000_000_000,
            r.config_spec().backoff_multiplier_permille == 2000,
            r.config_spec().max_retries == 0,
            r.retries() == 0,
            r.backoff_nanos() == 0,
            r.health_spec().connect_count == 0,
            r.health_spec().failure_count == 0,
            r.health_spec().disconnect_count == 0,
    {
        Self::new(RetryConfig::default())
    }

    /// The current state.
    pub fn state(&self) -> (r: ConnectionState)
        ensures
            r == self.state_spec(),
    {
        self.state
    }

    /// Failures since the last successful connection or reset.
    pub fn retry_count(&self) -> (r: u8)
        ensures
            r == self.retries(),
    {
        self.retry_count
    }

    /// The current backoff, in nanoseconds.
    pub fn current_backoff_nanos(&self) -> (r: u64)
        ensures
            r == self.backoff_nanos(),
    {
        self.current_backoff_nanos
    }

    /// The health counters, with the uptime brought up to date while
    /// connected.
    pub fn health(&self) -> (r: ConnectionHealth)
        ensures
            r.connect_count == self.health_spec().connect_count,
            r.failure_count == self.health_spec().failure_count,
            r.disconnect_count == self.health_spec().disconnect_count,
    {
        let mut h = ConnectionHealth {
            connect_count: self.health.connect_count,
            failure_count: self.health.failure_count,
            disconnect_count: self.health.disconnect_count,
            last_connected: self.health.last_connected,
            last_failure: self.health.last_failure,
            uptime: self.health.uptime,
        };
        if self.state == ConnectionState::Connected {
            h.update_uptime();
        }
        h
    }

    /// Time spent in the current state.
    pub fn time_in_state(&self) -> (r: Duration) {
        instant_elapsed(&self.last_state_change)
    }

    /// Starts a connection attempt, from disconnected or backing off.
    /// Returns whether it started.
    pub fn connect(&mut self) -> (r: bool)
        ensures
            r == (old(self).state_spec() == ConnectionState::Disconnected || old(self).state_spec()
                == ConnectionState::Backoff),
            r ==> final(self).state_spec() == ConnectionState::Connecting,
            !r ==> final(self).state_spec() == old(self).state_spec(),
            final(self).retries() == old(self).retries(),
            final(self).backoff_nanos() == old(self).backoff_nanos(),
            final(self).config_spec() == old(self).config_spec(),
            final(self).health_spec() == old(self).health_spec(),
    {
        if self.state == ConnectionState::Disconnected || self.state == ConnectionState::Backoff {
            self.state = ConnectionState::Connecting;
            self.last_state_change = instant_now();
            true
        } else {
            false
        }
    }

    /// Marks the connection established, from connecting or reconnecting;
    /// the retries and backoff start over and the connection is counted.
    /// Returns whether it was marked.
    pub fn connected(&mut self) -> (r: bool)
        requires
            old(self).health_spec().connect_count < u64::MAX,
        ensures
            r == (old(self).state_spec() == ConnectionState::Connecting || old(self).state_spec()
                == ConnectionState::Reconnecting),
            r ==> final(self).state_spec() == ConnectionState::Connected && final(self).retries() == 0
                && final(self).backoff_nanos() == 0 && final(self).health_spec().connect_count == old(self).health_spec().connect_count + 1,
            !r ==> final(self).state_spec() == old(self).state_spec() && final(self).retries() == old(self).retries() && final(self).backoff_nanos() == old(self).backoff_nanos()
                && final(self).health_spec() == old(self).health_spec(),
            final(self).health_spec().failure_count == old(self).health_spec().failure_count,
            final(self).health_spec().disconnect_count == old(self).health_spec().disconnect_count,
            final(self).config_spec() == old(self).config_spec(),
    {
        if self.state == ConnectionState::Connecting || self.state == ConnectionState::Reconnecting {
            self.state = ConnectionState::Connected;
            self.retry_count = 0;
            self.current_backoff_nanos = 0;
            self.health.record_connected();
            self.last_state_change = instant_now();
            true
        } else {
            false
        }
    }

    /// Marks a connected connection lost, to be reconnected; the loss is
    /// counted. Returns whether it was marked.
    pub fn disconnected(&mut self) -> (r: bool)
        requires
            old(self).health_spec().disconnect_count < u64::MAX,
        ensures
            r == (old(self).state_spec() == ConnectionState::Connected),
            r ==> final(self).state_spec() == ConnectionState::Reconnecting && final(self).health_spec().disconnect_count == old(self).health_spec().disconnect_count + 1,
            !r ==> final(self).state_spec() == old(self).state_spec() && final(self).health_spec() == old(self).health_spec(),
            final(self).health_spec().connect_count == old(self).health_spec().connect_count,
            final(self).health_spec().failure_count == old(self).health_spec().failure_count,
            final(self).retries() == old(self).retries(),
            final(self).backoff_nanos() == old(self).backoff_nanos(),
            final(self).config_spec() == old(self).config_spec(),
    {
        if self.state == ConnectionState::Connected {
            self.state = ConnectionState::Reconnecting;
            self.health.record_disconnected();
            self.last_state_change = instant_now();
            true
        } else {
            false
        }
    }

    /// Records a failed attempt (while connecting or reconnecting): the
    /// failure is counted and either the retries are used up, and the
    /// connection has failed (None), or it backs off for the next backoff,
    /// which is returned in nanoseconds. Anywhere else nothing changes and
    /// None is returned.
    pub fn failed(&mut self) -> (r: Option<u64>)
        requires
            old(self).retries() < u8::MAX,
            old(self).health_spec().failure_count < u64::MAX,
        ensures
            !(old(self).state_spec() == ConnectionState::Connecting || old(self).state_spec()
                == ConnectionState::Reconnecting) ==> r is None && final(self).state_spec() == old(self).state_spec() && final(self).retries() == old(self).retries() && final(self).backoff_nanos()
                == old(self).backoff_nanos() && final(self).health_spec() == old(self).health_spec(),
            (old(self).state_spec() == ConnectionState::Connecting || old(self).state_spec()
                == ConnectionState::Reconnecting) ==> final(self).retries() == old(self).retries() + 1
                && final(self).health_spec().failure_count == old(self).health_spec().failure_count + 1
                && final(self).health_spec().connect_count == old(self).health_spec().connect_count
                && final(self).health_spec().disconnect_count == old(self).health_spec().disconnect_count
                && if gives_up(old(self).config_spec(), old(self).retries()) {
                r is None && final(self).state_spec() == ConnectionState::Failed
                    && final(self).backoff_nanos() == old(self).backoff_nanos()
            } else {
                r == Some(next_backoff(old(self).config_spec(), old(self).backoff_nanos()))
                    && final(self).state_spec() == ConnectionState::Backoff && final(self).backoff_nanos()
                    == next_backoff(old(self).config_spec(), old(self).backoff_nanos())
            },
            final(self).config_spec() == old(self).config_spec(),
    {
        if self.state != ConnectionState::Connecting && self.state != ConnectionState::Reconnecting {
            return None;
        }
        let retry = self.retry_count + 1;
        self.retry_count = retry;
        if self.config.max_retries > 0 && (retry as u32) >= self.config.max_retries {
            self.state = ConnectionState::Failed;
            self.health.record_failure();
            self.last_state_change = instant_now();
            return None;
        }
        let backoff = self.grown_backoff();
        self.current_backoff_nanos = backoff;
        self.state = ConnectionState::Backoff;
        self.health.record_failure();
        self.last_state_change = instant_now();
        Some(backoff)
    }

    /// The backoff after the current one.
    fn grown_backoff(&self) -> (r: u64)
        ensures
            r == next_backoff(self.config, self.current_backoff_nanos),
    {
        let grown: u128 = if self.current_backoff_nanos == 0 {
            self.config.initial_backoff_nanos as u128
        } else {
            let a = self.current_backoff_nanos as u128;
            let b = self.config.backoff_multiplier_permille as u128;
            assert(a * b <= 0xffff_ffff_ffff_ffff * 0xffff_ffff_ffff_ffff) by (nonlinear_arith)
                requires
                    a <= 0xffff_ffff_ffff_ffff,
                    b <= 0xffff_ffff_ffff_ffff,
            ;
            let product: u128 = a * b;
            product / 1000
        };
        if grown <= self.config.max_backoff_nanos as u128 {
            grown as u64
        } else {
            self.config.max_backoff_nanos
        }
    }

    /// Returns to disconnected; the retries and backoff start over.
    pub fn reset(&mut self)
        ensures
            final(self).state_spec() == ConnectionState::Disconnected,
            final(self).retries() == 0,
            final(self).backoff_nanos() == 0,
            final(self).health_spec() == old(self).health_spec(),
            final(self).config_spec() == old(self).config_spec(),
    {
        self.state = ConnectionState::Disconnected;
        self.retry_count = 0;
        self.current_backoff_nanos = 0;
        self.last_state_change = instant_now();
    }

    /// Whether a connection attempt can start.
    pub fn can_connect(&self) -> (r: bool)
        ensures
            r == (self.state_spec() == ConnectionState::Disconnected || self.state_spec()
                == ConnectionState::Backoff),
    {
        self.state == ConnectionState::Disconnected || self.state == ConnectionState::Backoff
    }

    /// Whether the connection is established.
    pub fn is_connected(&self) -> (r: bool)
        ensures
            r == (self.state_spec() == ConnectionState::Connected),
    {
        self.state == ConnectionState::Connected
    }

    /// Whether the connection has failed for good.
    pub fn is_failed(&self) -> (r: bool)
        ensures
            r == (self.state_spec() == ConnectionState::Failed),
    {
        self.state == ConnectionState::Failed
    }

    /// Whether a backoff is over after this many nanoseconds in the backoff
    /// state.
    pub fn backoff_elapsed_after(&self, elapsed_nanos: u128) -> (r: bool)
        ensures
            r == (self.state_spec() == ConnectionState::Backoff && elapsed_nanos >= self.backoff_nanos()),
    {
        self.state == ConnectionState::Backoff && elapsed_nanos >= self.current_backoff_nanos as u128
    }

    /// Whether the backoff is over: backing off for at least the current
    /// backoff.
    pub fn backoff_elapsed(&self) -> (r: bool)
        ensures
            r ==> self.state_spec() == ConnectionState::Backoff,
    {
        if self.state != ConnectionState::Backoff {
            return false;
        }
        let elapsed = duration_as_nanos(instant_elapsed(&self.last_state_change));
        self.backoff_elapsed_after(elapsed)
    }
}

impl Default for ConnectionManager {
    fn default() -> (r: Self)
        ensures
            r.state_spec() == ConnectionState::Disconnected,
            r.retries() == 0,
            r.backoff_nanos() == 0,
    {
        Self::with_defaults()
    }
}


/// With a multiplier of at least one, each backoff is at least the one
/// before (up to the maximum) and never above the maximum.
pub proof fn law_backoff_grows_to_cap(config: RetryConfig, current: u64)
    requires
        config.backoff_multiplier_permille >= 1000,
        current <= config.max_backoff_nanos,
    ensures
        next_backoff(config, current) <= config.max_backoff_nanos,
        current > 0 ==> next_backoff(config, current) >= current,
{
    if current > 0 {
        assert(current as int * config.backoff_multiplier_permille as int >= current as int * 1000) by (nonlinear_arith)
            requires
                config.backoff_multiplier_permille >= 1000,
                current >= 0,
        ;
    }
}

/// With a limit of retries, the connection gives up exactly at the
/// failure that reaches the limit; without one it never does.
pub proof fn law_gives_up_at_limit(config: RetryConfig, retries_before: u8)
    ensures
        config.max_retries == 0 ==> !gives_up(config, retries_before),
        config.max_retries > 0 && retries_before + 1 < config.max_retries ==> !gives_up(config, retries_before),
        config.max_retries > 0 && retries_before + 1 == config.max_retries ==> gives_up(config, retries_before),
{
}

/// What a pull from a source connection handed over.
#[derive(Debug, Clone, Copy, PartialEq, Eq, Structural)]
pub enum Pulled {
    /// The connection is disabled: the whole output, of this length, is
    /// silence.
    Disabled(usize),
    /// The connection is muted: this many samples were read and silenced.
    Muted(usize),
    /// This many samples were read, still to be scaled by the gain.
    Audio(usize),
}

/// A source connection that feeds audio into a destination channel: a ring
/// buffer for its samples, with a gain that audio and control threads share
/// without locking, and mute and enable switches set through the owner.
///
/// Other threads may store the gain at any time, so what its loads return
/// is not stated.
pub struct SourceConnection {
    id: ConnectionId,
    buffer: RingBuffer,
    gain: AtomicF32,
    muted: bool,
    enabled: bool,
}

impl SourceConnection {
    /// The connection's identifier.
    pub closed spec fn id_spec(&self) -> ConnectionIdView {
        self.id@
    }

    /// The connection's buffer.
    pub closed spec fn buffer_spec(&self) -> RingBuffer {
        self.buffer
    }

    /// Whether the connection is muted.
    pub closed spec fn muted_spec(&self) -> bool {
        self.muted
    }

    /// Whether the connection is enabled.
    pub closed spec fn enabled_spec(&self) -> bool {
        self.enabled
    }

    /// The buffer is well formed.
    pub closed spec fn wf(&self) -> bool {
        self.buffer.wf()
    }

    /// Creates an enabled, unmuted connection at unity gain with an empty
    /// buffer of `buffer_size` samples, rounded up to a power of two.
    pub fn new(id: ConnectionId, buffer_size: usize) -> (r: Self)
        requires
            buffer_size <= usize::MAX / 2 + 1,
        ensures
            r.wf(),
            r.id_spec() == id@,
            r.buffer_spec()@ == Seq::<u32>::empty(),
            is_capacity_for(r.buffer_spec().cap_log2(), buffer_size as nat),
            !r.muted_spec(),
            r.enabled_spec(),
    {
        SourceConnection {
            id,
            buffer: RingBuffer::new(buffer_size),
            gain: AtomicF32::from_bits(UNITY_BITS),
            muted: false,
            enabled: true,
        }
    }

    /// The connection's identifier.
    pub fn id(&self) -> (r: &ConnectionId)
        ensures
            r@ == self.id_spec(),
    {
        &self.id
    }

    /// Writes samples into the buffer, as many as there is room for, and
    /// returns how many it took.
    pub fn write(&mut self, samples: &[u32]) -> (r: usize)
        requires
            old(self).wf(),
        ensures
            final(self).wf(),
            final(self).id_spec() == old(self).id_spec(),
            final(self).buffer_spec().cap_log2() == old(self).buffer_spec().cap_log2(),
            r == write_count(old(self).buffer_spec()@, old(self).buffer_spec().cap(), samples@.len()),
            final(self).buffer_spec()@ == after_write(old(self).buffer_spec()@, old(self).buffer_spec().cap(), samples@),
            final(self).muted_spec() == old(self).muted_spec(),
            final(self).enabled_spec() == old(self).enabled_spec(),
    {
        self.buffer.write(samples)
    }

    /// Takes samples out of the buffer into `output` as processing does,
    /// short of the gain. A disabled connection gives silence over the
    /// whole output and reads nothing; otherwise the waiting samples are
    /// read, oldest first, as many as fit, and a muted connection silences
    /// them. The rest of `output` is left as it was.
    pub fn pull(&mut self, output: &mut [u32]) -> (r: Pulled)
        requires
            old(self).wf(),
        ensures
            final(self).wf(),
            final(self).id_spec() == old(self).id_spec(),
            final(self).buffer_spec().cap_log2() == old(self).buffer_spec().cap_log2(),
            final(output)@.len() == old(output)@.len(),
            final(self).muted_spec() == old(self).muted_spec(),
            final(self).enabled_spec() == old(self).enabled_spec(),
            r is Disabled <==> !old(self).enabled_spec(),
            r is Muted <==> old(self).enabled_spec() && old(self).muted_spec(),
            match r {
                Pulled::Disabled(n) => n == old(output)@.len() && final(output)@ == Seq::new(n as nat, |i: int| 0u32)
                    && final(self).buffer_spec()@ == old(self).buffer_spec()@,
                Pulled::Muted(n) => n == read_count(old(self).buffer_spec()@, old(output)@.len()) && final(output)@.take(
                    n as int,
                ) == Seq::new(n as nat, |i: int| 0u32) && final(output)@.skip(n as int) == old(output)@.skip(n as int)
                    && final(self).buffer_spec()@ == old(self).buffer_spec()@.skip(n as int),
                Pulled::Audio(n) => n == read_count(old(self).buffer_spec()@, old(output)@.len()) && final(output)@.take(n as int) == old(self).buffer_spec()@.take(n as int) && final(output)@.skip(n as int) == old(output)@.skip(n as int) && final(self).buffer_spec()@ == old(self).buffer_spec()@.skip(n as int),
            },
    {
        if !self.is_enabled() {
            let n = output.len();
            let mut i: usize = 0;
            while i < n
                invariant
                    n == output@.len(),
                    i <= n,
                    forall|k: int| 0 <= k < i ==> #[trigger] output@[k] == 0u32,
                decreases n - i,
            {
                output[i] = 0;
                i = i + 1;
            }
            assert(output@ =~= Seq::new(n as nat, |k: int| 0u32));
            return Pulled::Disabled(n);
        }
        let read = self.buffer.read(output);
        if self.is_muted() {
            let ghost after = output@;
            let mut i: usize = 0;
            while i < read
                invariant
                    output@.len() == after.len(),
                    read <= after.len(),
                    i <= read,
                    forall|k: int| 0 <= k < i ==> #[trigger] output@[k] == 0u32,
                    forall|k: int| read <= k < after.len() ==> #[trigger] output@[k] == after[k],
                decreases read - i,
            {
                output[i] = 0;
                i = i + 1;
            }
            assert(output@.take(read as int) =~= Seq::new(read as nat, |k: int| 0u32));
            assert(output@.skip(read as int) =~= after.skip(read as int));
            Pulled::Muted(read)
        } else {
            Pulled::Audio(read)
        }
    }

    /// The bit pattern of the gain (1.0 is unity).
    pub fn gain_bits(&self) -> (r: u32) {
        self.gain.get_bits()
    }

    /// Stores the gain given by its bit pattern.
    pub fn set_gain_bits(&self, bits: u32) {
        self.gain.set_bits(bits);
    }

    /// Whether the connection is muted.
    pub fn is_muted(&self) -> (r: bool)
        ensures
            r == self.muted_spec(),
    {
        self.muted
    }

    /// Sets the mute state; nothing else changes.
    pub fn set_muted(&mut self, muted: bool)
        ensures
            final(self).muted_spec() == muted,
            final(self).enabled_spec() == old(self).enabled_spec(),
            final(self).id_spec() == old(self).id_spec(),
            final(self).buffer_spec() == old(self).buffer_spec(),
            final(self).wf() == old(self).wf(),
    {
        self.muted = muted;
    }

    /// Whether the connection is enabled.
    pub fn is_enabled(&self) -> (r: bool)
        ensures
            r == self.enabled_spec(),
    {
        self.enabled
    }

    /// Sets the enabled state; nothing else changes.
    pub fn set_enabled(&mut self, enabled: bool)
        ensures
            final(self).enabled_spec() == enabled,
            final(self).muted_spec() == old(self).muted_spec(),
            final(self).id_spec() == old(self).id_spec(),
            final(self).buffer_spec() == old(self).buffer_spec(),
            final(self).wf() == old(self).wf(),
    {
        self.enabled = enabled;
    }

    /// The number of samples waiting in the buffer.
    pub fn available(&self) -> (r: usize)
        requires
            self.wf(),
        ensures
            r == self.buffer_spec()@.len(),
    {
        self.buffer.available()
    }

    /// The buffer's capacity.
    pub fn capacity(&self) -> (r: usize)
        requires
            self.wf(),
        ensures
            r == self.buffer_spec().cap(),
    {
        self.buffer.capacity()
    }
}

} // verus!
