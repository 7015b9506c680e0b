//! Errors of the audio engine and their messages.

use vstd::prelude::*;
use crate::text::{decimal, push_decimal, push_str};

verus! {

/// Maximum number of channels supported per stream.
pub const MAX_CHANNELS: usize = 256;

/// Errors of the audio engine.
#[derive(Debug)]
pub enum Error {
    /// A write did not fit in a buffer.
    BufferOverflow { attempted: usize, available: usize },
    /// A channel count above [`MAX_CHANNELS`].
    InvalidChannelCount(usize),
    /// Two sample rates that should agree.
    SampleRateMismatch { expected: u32, actual: u32 },
    /// A route that does not exist.
    RouteNotFound(String),
    /// A connection that exists already.
    ConnectionExists(String),
    /// A connection that does not exist.
    ConnectionNotFound(String),
    /// A destination that does not exist.
    DestinationNotFound(String),
    /// A failure of the resampler.
    Resampler(String),
}

/// The contents of a [`Error`].
pub enum ErrorView {
    BufferOverflow { attempted: usize, available: usize },
    InvalidChannelCount(usize),
    SampleRateMismatch { expected: u32, actual: u32 },
    RouteNotFound(Seq<char>),
    ConnectionExists(Seq<char>),
    ConnectionNotFound(Seq<char>),
    DestinationNotFound(Seq<char>),
    Resampler(Seq<char>),
}

impl View for Error {
    type V = ErrorView;

    open spec fn view(&self) -> ErrorView {
        match self {
            Error::BufferOverflow { attempted, available } => ErrorView::BufferOverflow { attempted: *attempted, available: *available },
            Error::InvalidChannelCount(n) => ErrorView::InvalidChannelCount(*n),
            Error::SampleRateMismatch { expected, actual } => ErrorView::SampleRateMismatch { expected: *expected, actual: *actual },
            Error::RouteNotFound(s) => ErrorView::RouteNotFound(s@),
            Error::ConnectionExists(s) => ErrorView::ConnectionExists(s@),
            Error::ConnectionNotFound(s) => ErrorView::ConnectionNotFound(s@),
            Error::DestinationNotFound(s) => ErrorView::DestinationNotFound(s@),
            Error::Resampler(s) => ErrorView::Resampler(s@),
        }
    }
}

/// The message of an engine error.
pub open spec fn error_message(e: ErrorView) -> Seq<char> {
    match e {
        ErrorView::BufferOverflow { attempted, available } =>
            "buffer overflow: tried to write "@ + decimal(attempted as nat) + " samples but only "@
                + decimal(available as nat) + " available"@,
        ErrorView::InvalidChannelCount(n) =>
            "invalid channel count: "@ + decimal(n as nat) + " (max: "@ + decimal(MAX_CHANNELS as nat) + ")"@,
        ErrorView::SampleRateMismatch { expected, actual } =>
            "sample rate mismatch: expected "@ + decimal(expected as nat) + " Hz, got "@ + decimal(actual as nat) + " Hz"@,
        ErrorView::RouteNotFound(s) => "route not found: "@ + s,
        ErrorView::ConnectionExists(s) => "connection already exists: "@ + s,
        ErrorView::ConnectionNotFound(s) => "connection not found: "@ + s,
        ErrorView::DestinationNotFound(s) => "destination not found: "@ + s,
        ErrorView::Resampler(s) => "resampler error: "@ + s,
    }
}

impl Error {
    /// The error's message.
    pub fn message(&self) -> (r: String)
        ensures
            r@ == error_message(self@),
    {
        let mut s = String::new();
        match self {
            Error::BufferOverflow { attempted, available } => {
                push_str(&mut s, "buffer overflow: tried to write ");
                push_decimal(&mut s, *attempted as u64);
                push_str(&mut s, " samples but only ");
                push_decimal(&mut s, *available as u64);
                push_str(&mut s, " available");
            },
            Error::InvalidChannelCount(n) => {
                push_str(&mut s, "invalid channel count: ");
                push_decimal(&mut s, *n as u64);
                push_str(&mut s, " (max: ");
                push_decimal(&mut s, MAX_CHANNELS as u64);
                push_str(&mut s, ")");
            },
            Error::SampleRateMismatch { expected, actual } => {
                push_str(&mut s, "sample rate mismatch: expected ");
                push_decimal(&mut s, *expected as u64);
                push_str(&mut s, " Hz, got ");
                push_decimal(&mut s, *actual as u64);
                push_str(&mut s, " Hz");
            },
            Error::RouteNotFound(r) => {
                push_str(&mut s, "route not found: ");
                push_str(&mut s, r.as_str());
            },
            Error::ConnectionExists(c) => {
                push_str(&mut s, "connection already exists: ");
                push_str(&mut s, c.as_str());
            },
            Error::ConnectionNotFound(c) => {
                push_str(&mut s, "connection not found: ");
                push_str(&mut s, c.as_str());
            },
            Error::DestinationNotFound(d) => {
                push_str(&mut s, "destination not found: ");
                push_str(&mut s, d.as_str());
            },
            Error::Resampler(m) => {
                push_str(&mut s, "resampler error: ");
                push_str(&mut s, m.as_str());
            },
        }
        s
    }
}

} // verus!
