//! Polarizer: image analysis pipeline logic with verified contracts.
//!
//! The crate holds the decisions of the service: configuration parsing,
//! health answers, download limits, cache keys and cache entries, and the
//! per-image processing state machine. The I/O around them (environment,
//! HTTP, Redis, ONNX runtime) is driven by the binary under `app/`.
pub mod config;
pub mod error;
pub mod health;
pub mod telemetry;
pub mod pipeline;
