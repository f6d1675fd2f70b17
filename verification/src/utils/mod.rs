//! Utility modules for connector development.

/// Batching helpers for connector runtimes and adapters.
pub mod batching;
/// Health status helpers for implementing connector health checks.
pub mod health;

pub use batching::{flush_due, Batcher};
pub use health::{HealthChecker, HealthStatus};
/// Lightweight serialization helpers for JSON and UTF-8 string payloads.
pub mod serialization;

pub use serialization::{json, string, SerializationError};
