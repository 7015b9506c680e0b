//! The audio processor as the control side sees it: the operations it
//! offers on routes and streams, their errors, and the diagnostics it
//! reports about audio devices.

use vstd::prelude::*;
use crate::connection::{ConnectionId, ConnectionIdView};
use crate::text::push_str;

verus! {

/// Errors of route operations.
#[derive(Debug, Clone)]
pub enum RouteError {
    /// No buffer is available in the pool.
    NoBufferAvailable,
    /// The route does not exist.
    NotFound(String),
    /// The route is not valid.
    Invalid(String),
    /// Something else went wrong.
    Internal(String),
}

/// The message of a route error.
pub open spec fn route_error_message(e: RouteError) -> Seq<char> {
    match e {
        RouteError::NoBufferAvailable => "no buffer available"@,
        RouteError::NotFound(s) => "route not found: "@ + s@,
        RouteError::Invalid(s) => "invalid route: "@ + s@,
        RouteError::Internal(s) => "internal error: "@ + s@,
    }
}

impl RouteError {
    /// The error's message.
    pub fn to_string(&self) -> (r: String)
        ensures
            r@ == route_error_message(*self),
    {
        let mut s = String::new();
        match self {
            RouteError::NoBufferAvailable => push_str(&mut s, "no buffer available"),
            RouteError::NotFound(d) => {
                push_str(&mut s, "route not found: ");
                push_str(&mut s, d.as_str());
            },
            RouteError::Invalid(d) => {
                push_str(&mut s, "invalid route: ");
                push_str(&mut s, d.as_str());
            },
            RouteError::Internal(d) => {
                push_str(&mut s, "internal error: ");
                push_str(&mut s, d.as_str());
            },
        }
        s
    }
}

/// The audio processor that carries out routes: implemented by the node's
/// audio side for the control state to call. Nothing is assumed of what
/// its methods return; gains are passed as the bit patterns of their
/// `f32` values.
pub trait RouteController {
    /// Adds a route for a connection; returns its buffer index.
    fn add_route(&self, conn_id: ConnectionId) -> Result<usize, RouteError>;

    /// Removes the route of a connection.
    fn remove_route(&self, conn_id: &ConnectionId) -> Result<(), RouteError>;

    /// Sets the gain of a route.
    fn set_route_gain(&self, conn_id: &ConnectionId, gain_bits: u32) -> Result<(), RouteError>;

    /// Sets the mute state of a route.
    fn set_route_muted(&self, conn_id: &ConnectionId, muted: bool) -> Result<(), RouteError>;

    /// Whether a route for a connection exists.
    fn has_route(&self, conn_id: &ConnectionId) -> bool;

    /// The name of this node.
    fn node_name(&self) -> &str;

    /// Stops the VBAN sender of a subscription.
    fn stop_vban_sender(&self, subscription_id: u64) -> Result<(), RouteError>;

    /// Makes sure an input stream runs for a device; returns the buffer of
    /// each requested channel.
    fn ensure_input_stream(&self, device_id: &str, channels: &[u16]) -> Result<Vec<usize>, RouteError>;

    /// Registers the buffers that a received VBAN stream is written to.
    fn register_vban_stream_buffers(&self, stream_name: &str, buffer_indices: Vec<usize>);

    /// Unregisters a received VBAN stream.
    fn unregister_vban_stream(&self, stream_name: &str);

    /// Allocates the buffers that audio received for a device's channels is
    /// written to.
    fn allocate_receive_buffers(&self, dest_device: &str, channels: &[u16]) -> Result<Vec<usize>, RouteError>;

    /// Makes sure an output stream runs for a device.
    fn ensure_output_stream(&self, device_id: &str) -> Result<(), RouteError>;

    /// What the audio backend sees: hosts and devices.
    fn audio_diagnostics(&self) -> AudioDiagnostics;

    /// Tries a device's streams and reports how that went.
    fn diagnose_device(&self, device_id: &str) -> DeviceDiagnostic;
}

/// One thing asked of the audio processor.
#[derive(Debug)]
pub enum ControllerCommand {
    /// Add the route of a connection.
    Add(ConnectionId),
    /// Remove the route of a connection.
    Remove(ConnectionId),
    /// Set the gain of a connection, by its bit pattern.
    SetGain(ConnectionId, u32),
    /// Set the mute state of a connection.
    SetMuted(ConnectionId, bool),
}

/// A command as a value.
pub enum CommandView {
    Add(ConnectionIdView),
    Remove(ConnectionIdView),
    SetGain(ConnectionIdView, u32),
    SetMuted(ConnectionIdView, bool),
}

impl View for ControllerCommand {
    type V = CommandView;

    open spec fn view(&self) -> CommandView {
        match self {
            ControllerCommand::Add(c) => CommandView::Add(c@),
            ControllerCommand::Remove(c) => CommandView::Remove(c@),
            ControllerCommand::SetGain(c, g) => CommandView::SetGain(c@, *g),
            ControllerCommand::SetMuted(c, m) => CommandView::SetMuted(c@, *m),
        }
    }
}

/// The commands as values.
pub open spec fn command_views(cmds: Seq<ControllerCommand>) -> Seq<CommandView> {
    cmds.map_values(|c: ControllerCommand| c@)
}

/// Asks the processor for one command: the method of the same name, with
/// the command's connection and value; the buffer index an added route
/// gets is not kept.
pub fn issue<C: RouteController>(controller: &C, cmd: &ControllerCommand) -> (r: Result<(), RouteError>) {
    match cmd {
        ControllerCommand::Add(c) => match controller.add_route(c.clone()) {
            Ok(_) => Ok(()),
            Err(e) => Err(e),
        },
        ControllerCommand::Remove(c) => controller.remove_route(c),
        ControllerCommand::SetGain(c, g) => controller.set_route_gain(c, *g),
        ControllerCommand::SetMuted(c, m) => controller.set_route_muted(c, *m),
    }
}

/// Asks the processor for the commands in order, stopping at the first it
/// refuses. Returns how many were asked and that refusal, if any: all were
/// asked exactly when none was refused, and a refusal is of the last one
/// asked.
pub fn carry_out<C: RouteController>(controller: &C, cmds: &Vec<ControllerCommand>) -> (r: (usize, Option<RouteError>))
    ensures
        r.0 <= cmds@.len(),
        r.1 is None ==> r.0 == cmds@.len(),
        r.1 is Some ==> r.0 >= 1,
{
    let mut i: usize = 0;
    while i < cmds.len()
        invariant
            i <= cmds@.len(),
        decreases cmds.len() - i,
    {
        match issue(controller, &cmds[i]) {
            Ok(()) => {},
            Err(e) => {
                return (i + 1, Some(e));
            },
        }
        i = i + 1;
    }
    (i, None)
}

/// The commands that carry out a route on this node: add it where the
/// processor lacks it, then set its gain, then its mute state.
pub open spec fn route_plan(c: ConnectionIdView, volume_bits: u32, muted: bool, has_route: bool) -> Seq<CommandView> {
    (if has_route {
        Seq::<CommandView>::empty()
    } else {
        seq![CommandView::Add(c)]
    }) + seq![CommandView::SetGain(c, volume_bits), CommandView::SetMuted(c, muted)]
}

/// Audio system diagnostics.
#[derive(Debug, Clone)]
pub struct AudioDiagnostics {
    /// Available audio hosts (e.g. ASIO, WASAPI).
    pub hosts: Vec<String>,
    /// Input devices the audio backend sees.
    pub input_devices: Vec<CpalDeviceInfo>,
    /// Output devices the audio backend sees.
    pub output_devices: Vec<CpalDeviceInfo>,
}

/// A device as the audio backend reports it.
#[derive(Debug, Clone)]
pub struct CpalDeviceInfo {
    /// Host name.
    pub host: String,
    /// Device name.
    pub name: String,
    /// Whether it supports input.
    pub has_input: bool,
    /// Whether it supports output.
    pub has_output: bool,
}

/// Diagnosis of one device.
#[derive(Debug, Clone)]
pub struct DeviceDiagnostic {
    /// The device diagnosed.
    pub device_id: String,
    /// Whether it was found.
    pub found: bool,
    /// Outcome of starting an input stream.
    pub input_stream_result: Option<String>,
    /// Outcome of starting an output stream.
    pub output_stream_result: Option<String>,
    /// Error message, if any operation failed.
    pub error: Option<String>,
}

} // verus!
