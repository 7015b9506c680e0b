//! Errors of ASIO operations and their messages.

use vstd::prelude::*;
use crate::text::{decimal, push_decimal, push_str};

verus! {

/// Errors of ASIO operations.
#[derive(Debug)]
pub enum AsioError {
    /// ASIO is not available (Windows only).
    NotAvailable,
    /// Host initialization failed.
    HostInitFailed(String),
    /// Device not found.
    DeviceNotFound(String),
    /// A device could not be opened.
    DeviceOpenFailed { name: String, reason: String },
    /// A stream could not start.
    StreamStartFailed(String),
    /// A stream failed while running.
    StreamError(String),
    /// Invalid configuration.
    ConfigError(String),
    /// A buffer size outside the device's range.
    BufferSizeNotSupported { requested: u32, min: u32, max: u32 },
    /// A sample rate that the device does not support.
    SampleRateNotSupported(u32),
    /// More channels than the device has.
    ChannelCountExceeded { requested: u16, max: u16 },
    /// The device is in use by another application.
    DeviceBusy(String),
    /// An error reported by the audio backend.
    CpalError(String),
}

/// The message of each ASIO error.
pub open spec fn asio_error_message(e: AsioError) -> Seq<char> {
    match e {
        AsioError::NotAvailable => "ASIO is not available (Windows only with 'asio' feature)"@,
        AsioError::HostInitFailed(s) => "failed to initialize ASIO host: "@ + s@,
        AsioError::DeviceNotFound(s) => "ASIO device not found: "@ + s@,
        AsioError::DeviceOpenFailed { name, reason } => "failed to open ASIO device '"@ + name@ + "': "@ + reason@,
        AsioError::StreamStartFailed(s) => "failed to start ASIO stream: "@ + s@,
        AsioError::StreamError(s) => "ASIO stream error: "@ + s@,
        AsioError::ConfigError(s) => "invalid ASIO configuration: "@ + s@,
        AsioError::BufferSizeNotSupported { requested, min, max } =>
            "buffer size "@ + decimal(requested as nat) + " not supported (min: "@ + decimal(min as nat)
                + ", max: "@ + decimal(max as nat) + ")"@,
        AsioError::SampleRateNotSupported(r) => "sample rate "@ + decimal(r as nat) + " Hz not supported by device"@,
        AsioError::ChannelCountExceeded { requested, max } =>
            "channel count "@ + decimal(requested as nat) + " exceeds device maximum "@ + decimal(max as nat),
        AsioError::DeviceBusy(s) => "ASIO device '"@ + s@ + "' is busy (in use by another application)"@,
        AsioError::CpalError(s) => "cpal error: "@ + s@,
    }
}

impl AsioError {
    /// The error's message.
    pub fn to_string(&self) -> (r: String)
        ensures
            r@ == asio_error_message(*self),
    {
        let mut out = String::new();
        match self {
            AsioError::NotAvailable => {
                push_str(&mut out, "ASIO is not available (Windows only with 'asio' feature)");
            },
            AsioError::HostInitFailed(s) => {
                push_str(&mut out, "failed to initialize ASIO host: ");
                push_str(&mut out, s.as_str());
            },
            AsioError::DeviceNotFound(s) => {
                push_str(&mut out, "ASIO device not found: ");
                push_str(&mut out, s.as_str());
            },
            AsioError::DeviceOpenFailed { name, reason } => {
                push_str(&mut out, "failed to open ASIO device '");
                push_str(&mut out, name.as_str());
                push_str(&mut out, "': ");
                push_str(&mut out, reason.as_str());
            },
            AsioError::StreamStartFailed(s) => {
                push_str(&mut out, "failed to start ASIO stream: ");
                push_str(&mut out, s.as_str());
            },
            AsioError::StreamError(s) => {
                push_str(&mut out, "ASIO stream error: ");
                push_str(&mut out, s.as_str());
            },
            AsioError::ConfigError(s) => {
                push_str(&mut out, "invalid ASIO configuration: ");
                push_str(&mut out, s.as_str());
            },
            AsioError::BufferSizeNotSupported { requested, min, max } => {
                push_str(&mut out, "buffer size ");
                push_decimal(&mut out, *requested as u64);
                push_str(&mut out, " not supported (min: ");
                push_decimal(&mut out, *min as u64);
                push_str(&mut out, ", max: ");
                push_decimal(&mut out, *max as u64);
                push_str(&mut out, ")");
            },
            AsioError::SampleRateNotSupported(r) => {
                push_str(&mut out, "sample rate ");
                push_decimal(&mut out, *r as u64);
                push_str(&mut out, " Hz not supported by device");
            },
            AsioError::ChannelCountExceeded { requested, max } => {
                push_str(&mut out, "channel count ");
                push_decimal(&mut out, *requested as u64);
                push_str(&mut out, " exceeds device maximum ");
                push_decimal(&mut out, *max as u64);
            },
            AsioError::DeviceBusy(s) => {
                push_str(&mut out, "ASIO device '");
                push_str(&mut out, s.as_str());
                push_str(&mut out, "' is busy (in use by another application)");
            },
            AsioError::CpalError(s) => {
                push_str(&mut out, "cpal error: ");
                push_str(&mut out, s.as_str());
            },
        }
        out
    }
}

} // verus!
