//! Events pushed to control clients over the WebSocket, and the commands
//! they send.

use vstd::prelude::*;
use crate::api_models::RouteDefinition;
use crate::state::{route_text, AppState};

verus! {

/// A route was added, removed or changed.
#[derive(Debug, Clone)]
pub struct RouteUpdate {
    /// `added`, `removed` or `modified`.
    pub action: String,
    /// Route identifier.
    pub route_id: String,
}

/// A node appeared or went away.
#[derive(Debug, Clone)]
pub struct NodeStatusUpdate {
    /// Node identifier.
    pub node: String,
    /// Whether it is online.
    pub online: bool,
}

/// A device changed state.
#[derive(Debug, Clone)]
pub struct DeviceStatusUpdate {
    /// Device identifier.
    pub device: String,
    /// Device state (idle, running, error, disconnected).
    pub state: String,
}

/// An error to report.
#[derive(Debug, Clone)]
pub struct ErrorUpdate {
    /// Error code.
    pub code: String,
    /// Error message.
    pub message: String,
}

/// A cross-node route needs a VBAN subscription.
#[derive(Debug, Clone)]
pub struct SubscriptionNeededEvent {
    /// Route identifier.
    pub route_id: String,
    /// Source node.
    pub source_node: String,
    /// Source device.
    pub source_device: String,
    /// Source channel (1-based).
    pub source_channel: u16,
    /// Destination node.
    pub destination_node: String,
    /// Destination device.
    pub destination_device: String,
    /// Destination channel (1-based).
    pub destination_channel: u16,
}

impl SubscriptionNeededEvent {
    /// The event announcing that a route needs a subscription: the route's
    /// identifier and endpoints.
    pub fn for_route(route: &RouteDefinition) -> (r: Self)
        ensures
            r.route_id@ == route_text(route@),
            r.source_node@ == route@.source_node,
            r.source_device@ == route@.source_device,
            r.source_channel == route.source_channel,
            r.destination_node@ == route@.destination_node,
            r.destination_device@ == route@.destination_device,
            r.destination_channel == route.destination_channel,
    {
        SubscriptionNeededEvent {
            route_id: AppState::route_id(route),
            source_node: route.source_node.clone(),
            source_device: route.source_device.clone(),
            source_channel: route.source_channel,
            destination_node: route.destination_node.clone(),
            destination_device: route.destination_device.clone(),
            destination_channel: route.destination_channel,
        }
    }
}

/// A command from a control client.
#[derive(Debug, Clone)]
pub enum WsCommand {
    /// Subscribe to the metering of a device.
    SubscribeMetering { node: String, device: String },
    /// Unsubscribe from the metering of a device.
    UnsubscribeMetering { node: String, device: String },
    /// Keepalive.
    Ping,
}

} // verus!
