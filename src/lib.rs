//! Session management for a BLE GATT peripheral: descriptor registry,
//! handle map, connection table, read/write dispatch and the
//! confirmation-gated indication pipeline, as a verified state machine
//! driven by radio-stack events.

pub mod uuid;
pub mod gatt;
pub mod table;
pub mod service;
pub mod app;
pub mod handles;
pub mod events;
pub mod slot;
pub mod session;
pub mod handlers;
pub mod pipeline;
pub mod laws;
pub mod builder;
pub mod led;
pub mod config;
pub mod connections;
