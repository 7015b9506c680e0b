//! Subscriptions for cross-node audio routing.
//!
//! Destinations subscribe to sources: the subscription lives at the
//! destination node, and the source sends audio to every active
//! subscriber until it is unsubscribed or stops hearing heartbeats.

use vstd::prelude::*;
use std::time::{Duration, Instant};
use crate::time::{instant_now, instant_elapsed, duration_as_nanos, duration_from_secs};

verus! {

/// Unique identifier for a subscription.
pub type SubscriptionId = u64;

/// Result of a subscription attempt.
#[derive(Debug, Clone)]
pub enum SubscribeResult {
    /// Subscription successful.
    Success,
    /// Device not found.
    DeviceNotFound,
    /// Channel not available.
    ChannelNotAvailable,
    /// Stream limit reached.
    StreamLimitReached,
    /// Other error.
    Error(String),
}

impl SubscribeResult {
    /// Returns true if subscription was successful.
    pub fn is_success(&self) -> (r: bool)
        ensures
            r == (*self is Success),
    {
        matches!(self, SubscribeResult::Success)
    }
}

/// Acknowledgment of a subscription request.
#[derive(Debug, Clone)]
pub struct SubscribeAck {
    /// Correlates to the request's ID.
    pub request_id: u64,
    /// Assigned subscription ID.
    pub subscription_id: SubscriptionId,
    /// Actual sample rate of the stream.
    pub sample_rate: u32,
    /// Actual channels being sent.
    pub channels: Vec<u16>,
    /// Stream name that will appear in VBAN packets.
    pub vban_stream_name: String,
    /// Success or error.
    pub result: SubscribeResult,
}

/// Unsubscribe request.
#[derive(Debug, Clone)]
pub struct UnsubscribeRequest {
    /// Request ID for correlation.
    pub request_id: u64,
    /// Subscription to cancel.
    pub subscription_id: SubscriptionId,
}

/// Acknowledgment of unsubscribe.
#[derive(Debug, Clone)]
pub struct UnsubscribeAck {
    /// Correlates to the request's ID.
    pub request_id: u64,
    /// Subscription that was cancelled.
    pub subscription_id: SubscriptionId,
    /// Whether unsubscribe was successful.
    pub success: bool,
}

/// State of a subscription.
#[derive(Debug, Clone, Copy, PartialEq, Eq, Structural)]
pub enum SubscriptionState {
    /// Subscription is being set up.
    Pending,
    /// Subscription is active and receiving audio.
    Active,
    /// Subscription is paused (no audio flowing).
    Paused,
    /// Subscription failed.
    Failed,
    /// Subscription is being torn down.
    Closing,
}

/// State of an active subscription.
#[derive(Debug, Clone)]
pub struct Subscription {
    /// Unique subscription ID.
    pub id: SubscriptionId,
    /// Source node name.
    pub source_node: String,
    /// Source device ID.
    pub source_device: String,
    /// Source channels.
    pub source_channels: Vec<u16>,
    /// Destination device ID.
    pub dest_device: String,
    /// Destination channels.
    pub dest_channels: Vec<u16>,
    /// VBAN stream name.
    pub vban_stream_name: String,
    /// Sample rate.
    pub sample_rate: u32,
    /// When subscription was created.
    pub created_at: Instant,
    /// Last heartbeat received.
    pub last_heartbeat: Instant,
    /// State of the subscription.
    pub state: SubscriptionState,
}

/// Whether a subscription whose last heartbeat was `elapsed_nanos` ago has
/// outlived a timeout of `timeout_nanos`.
pub open spec fn timed_out(elapsed_nanos: u128, timeout_nanos: u128) -> bool {
    elapsed_nanos > timeout_nanos
}

/// Whether a subscription whose last heartbeat was `elapsed_nanos` ago has
/// outlived a timeout of `timeout_nanos`: strictly more time has passed.
pub fn is_timed_out_after(elapsed_nanos: u128, timeout_nanos: u128) -> (r: bool)
    ensures
        r == timed_out(elapsed_nanos, timeout_nanos),
{
    elapsed_nanos > timeout_nanos
}

impl Subscription {
    /// Creates a new pending subscription, created and last heard now.
    pub fn new(
        id: SubscriptionId,
        source_node: String,
        source_device: String,
        source_channels: Vec<u16>,
        dest_device: String,
        dest_channels: Vec<u16>,
        vban_stream_name: String,
        sample_rate: u32,
    ) -> (r: Self)
        ensures
            r.id == id,
            r.source_node == source_node,
            r.source_device == source_device,
            r.source_channels == source_channels,
            r.dest_device == dest_device,
            r.dest_channels == dest_channels,
            r.vban_stream_name == vban_stream_name,
            r.sample_rate == sample_rate,
            r.created_at == r.last_heartbeat,
            r.state == SubscriptionState::Pending,
    {
        let now = instant_now();
        Subscription {
            id,
            source_node,
            source_device,
            source_channels,
            dest_device,
            dest_channels,
            vban_stream_name,
            sample_rate,
            created_at: now,
            last_heartbeat: now,
            state: SubscriptionState::Pending,
        }
    }

    /// Checks if more than `timeout` has passed since the last heartbeat.
    pub fn is_timed_out(&self, timeout: Duration) -> (r: bool) {
        let elapsed = duration_as_nanos(instant_elapsed(&self.last_heartbeat));
        let limit = duration_as_nanos(timeout);
        is_timed_out_after(elapsed, limit)
    }

    /// Updates the last heartbeat time.
    pub fn heartbeat(&mut self)
        ensures
            final(self).id == old(self).id,
            final(self).state == old(self).state,
            final(self).created_at == old(self).created_at,
            final(self).source_node == old(self).source_node,
            final(self).source_device == old(self).source_device,
            final(self).source_channels == old(self).source_channels,
            final(self).dest_device == old(self).dest_device,
            final(self).dest_channels == old(self).dest_channels,
            final(self).vban_stream_name == old(self).vban_stream_name,
            final(self).sample_rate == old(self).sample_rate,
    {
        self.last_heartbeat = instant_now();
    }

    /// Marks the subscription as active, and counts this as a heartbeat.
    pub fn activate(&mut self)
        ensures
            final(self).state == SubscriptionState::Active,
            final(self).id == old(self).id,
            final(self).created_at == old(self).created_at,
            final(self).source_node == old(self).source_node,
            final(self).source_device == old(self).source_device,
            final(self).source_channels == old(self).source_channels,
            final(self).dest_device == old(self).dest_device,
            final(self).dest_channels == old(self).dest_channels,
            final(self).vban_stream_name == old(self).vban_stream_name,
            final(self).sample_rate == old(self).sample_rate,
    {
        self.state = SubscriptionState::Active;
        self.last_heartbeat = instant_now();
    }
}

/// Configuration for subscription management.
#[derive(Debug, Clone)]
pub struct SubscriptionConfig {
    /// Heartbeat interval.
    pub heartbeat_interval: Duration,
    /// Timeout before subscription is considered dead.
    pub timeout: Duration,
    /// Maximum subscriptions per source.
    pub max_subscriptions_per_source: usize,
    /// Maximum total subscriptions.
    pub max_total_subscriptions: usize,
}

impl Default for SubscriptionConfig {
    /// Heartbeats every 5 s, a 15 s timeout, at most 64 subscriptions per
    /// source and 256 in all.
    fn default() -> (r: Self)
        ensures
            r.max_subscriptions_per_source == 64,
            r.max_total_subscriptions == 256,
    {
        SubscriptionConfig {
            heartbeat_interval: duration_from_secs(5),
            timeout: duration_from_secs(15),
            max_subscriptions_per_source: 64,
            max_total_subscriptions: 256,
        }
    }
}

} // verus!
