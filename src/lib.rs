//! Resource-and-bridge layer between a host runtime and a streaming client:
//! validation of host symbols, translation of settings, and the decisions
//! taken on each consumer pull.
pub mod admin;
pub mod atom;
pub mod error;
pub mod consumer;
pub mod producer;
pub mod stream;
