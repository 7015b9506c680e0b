//! Verified core of the AudioMatrix routing system: device, connection,
//! routing-matrix and subscription bookkeeping, authentication decisions
//! and the textual forms of identifiers and errors.

pub mod text;
pub mod error;
pub mod api_error;
pub mod auth;
pub mod time;
pub mod device;
pub mod device_manager;
pub mod connection;
pub mod atomic;
pub mod destination;
pub mod routing_snapshot;
pub mod mixer;
pub mod metering;
pub mod persistence;
pub mod active_stream;
pub mod resampler;
pub mod routing;
pub mod subscription;
pub mod latency;
pub mod asio;
pub mod static_files;
pub mod wave_generator;
pub mod api_models;
pub mod keyed;
pub mod state;
pub mod handlers;
pub mod buffer;
pub mod callbacks;
pub mod ring_buffer_pool;
pub mod stream_registry;
pub mod routing_table;
pub mod route_controller;
pub mod websocket;
pub mod engine;
pub mod cross_node;
pub mod subscription_client;
